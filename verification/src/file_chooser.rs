//! File choosers: a chooser is answered once.
use vstd::prelude::*;

use crate::error::{other_error, Error};

verus! {

/// A file chooser the page opened: whether it takes several files, and
/// whether it was answered.
#[derive(Debug)]
pub struct FileChooserState {
    multiple: bool,
    handled: bool,
}

impl FileChooserState {
    pub closed spec fn spec_multiple(&self) -> bool {
        self.multiple
    }

    pub closed spec fn handled(&self) -> bool {
        self.handled
    }

    /// A chooser not yet answered.
    pub fn new(multiple: bool) -> (r: FileChooserState)
        ensures
            r.spec_multiple() == multiple,
            !r.handled(),
    {
        FileChooserState { multiple, handled: false }
    }

    /// Whether the chooser takes several files.
    pub fn is_multiple(&self) -> (r: bool)
        ensures
            r == self.spec_multiple(),
    {
        self.multiple
    }

    /// Take the chooser's one answer (accepting files or cancelling): an
    /// error when it was answered already.
    pub fn take_answer(&mut self) -> (r: Result<(), Error>)
        ensures
            final(self).handled(),
            final(self).spec_multiple() == old(self).spec_multiple(),
            old(self).handled() ==> r is Err && other_error(r->Err_0, "FileChooser already handled"@),
            !old(self).handled() ==> r is Ok,
    {
        if self.handled {
            proof {
                reveal_strlit("FileChooser already handled");
            }
            return Err(Error::Other("FileChooser already handled".to_owned()));
        }
        self.handled = true;
        Ok(())
    }
}

} // verus!
