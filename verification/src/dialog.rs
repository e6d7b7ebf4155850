//! JavaScript dialogs (alert, confirm, prompt, beforeunload): their kind,
//! and the rule that a dialog is answered once.
use vstd::prelude::*;

use crate::error::{invalid_state, Error};
use crate::frame::clone_opt_string;
use crate::keyed::str_eq;

verus! {

/// The kind of a JavaScript dialog.
#[derive(Debug, Clone, Copy, PartialEq, Eq, Structural)]
pub enum DialogType {
    Alert,
    Confirm,
    Prompt,
    BeforeUnload,
}

/// The kind that the protocol's name stands for; any name it does not
/// know is an alert.
pub open spec fn dialog_type_of(s: Seq<char>) -> DialogType {
    if s == "confirm"@ {
        DialogType::Confirm
    } else if s == "prompt"@ {
        DialogType::Prompt
    } else if s == "beforeunload"@ {
        DialogType::BeforeUnload
    } else {
        DialogType::Alert
    }
}

impl DialogType {
    /// The kind that the protocol's name stands for; an alert for any other name.
    pub fn from_cdp(s: &str) -> (r: DialogType)
        ensures
            r == dialog_type_of(s@),
    {
        if str_eq(s, "confirm") {
            DialogType::Confirm
        } else if str_eq(s, "prompt") {
            DialogType::Prompt
        } else if str_eq(s, "beforeunload") {
            DialogType::BeforeUnload
        } else {
            DialogType::Alert
        }
    }
}

/// A dialog the page opened, and whether it was answered.
#[derive(Debug)]
pub struct Dialog {
    dialog_type: DialogType,
    message: String,
    default_value: Option<String>,
    handled: bool,
}

/// The message of a second answer to a dialog.
pub const DIALOG_HANDLED: &'static str = "dialog already handled";

/// The answer sent for a dialog: accept (with the text for a prompt) or dismiss.
#[derive(Debug)]
pub struct DialogAnswer {
    pub accept: bool,
    pub prompt_text: Option<String>,
}

impl Dialog {
    pub closed spec fn spec_dialog_type(&self) -> DialogType {
        self.dialog_type
    }

    pub closed spec fn spec_message(&self) -> Seq<char> {
        self.message@
    }

    pub closed spec fn spec_default_value(&self) -> Option<Seq<char>> {
        crate::frame::opt_str(self.default_value)
    }

    /// Whether the dialog has been answered.
    pub closed spec fn handled(&self) -> bool {
        self.handled
    }

    /// A dialog not yet answered.
    pub fn new(dialog_type: DialogType, message: String, default_value: Option<String>) -> (r: Dialog)
        ensures
            r.spec_dialog_type() == dialog_type,
            r.spec_message() == message@,
            r.spec_default_value() == crate::frame::opt_str(default_value),
            !r.handled(),
    {
        Dialog { dialog_type, message, default_value, handled: false }
    }

    pub fn dialog_type(&self) -> (r: DialogType)
        ensures
            r == self.spec_dialog_type(),
    {
        self.dialog_type
    }

    pub fn message(&self) -> (r: &str)
        ensures
            r@ == self.spec_message(),
    {
        self.message.as_str()
    }

    pub fn default_value(&self) -> (r: Option<String>)
        ensures
            crate::frame::opt_str(r) == self.spec_default_value(),
    {
        clone_opt_string(&self.default_value)
    }

    /// Accept the dialog: the answer to send, the first time only; a dialog
    /// already answered is an invalid-state error.
    pub fn accept(&mut self, prompt_text: Option<String>) -> (r: Result<DialogAnswer, Error>)
        ensures
            final(self).handled(),
            final(self).spec_dialog_type() == old(self).spec_dialog_type(),
            final(self).spec_message() == old(self).spec_message(),
            final(self).spec_default_value() == old(self).spec_default_value(),
            old(self).handled() ==> r is Err && invalid_state(r->Err_0, DIALOG_HANDLED@),
            !old(self).handled() ==> r is Ok && r->Ok_0 == (DialogAnswer { accept: true, prompt_text }),
    {
        if self.handled {
            return Err(Error::InvalidState(DIALOG_HANDLED.to_owned()));
        }
        self.handled = true;
        Ok(DialogAnswer { accept: true, prompt_text })
    }

    /// Dismiss the dialog: the answer to send, the first time only; a dialog
    /// already answered is an invalid-state error.
    pub fn dismiss(&mut self) -> (r: Result<DialogAnswer, Error>)
        ensures
            final(self).handled(),
            final(self).spec_dialog_type() == old(self).spec_dialog_type(),
            final(self).spec_message() == old(self).spec_message(),
            final(self).spec_default_value() == old(self).spec_default_value(),
            old(self).handled() ==> r is Err && invalid_state(r->Err_0, DIALOG_HANDLED@),
            !old(self).handled() ==> r is Ok && r->Ok_0 == (DialogAnswer { accept: false, prompt_text: None }),
    {
        if self.handled {
            return Err(Error::InvalidState(DIALOG_HANDLED.to_owned()));
        }
        self.handled = true;
        Ok(DialogAnswer { accept: false, prompt_text: None })
    }
}

} // verus!
