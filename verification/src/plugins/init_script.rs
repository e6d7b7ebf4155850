//! A plugin that adds scripts to run in every new page before its own.
use vstd::prelude::*;

verus! {

/// Adds its scripts, in order, to every new page.
#[derive(Debug)]
pub struct InitScriptPlugin {
    scripts: Vec<String>,
}

impl InitScriptPlugin {
    /// The scripts, in order.
    pub closed spec fn spec_scripts(&self) -> Seq<Seq<char>> {
        self.scripts@.map_values(|s: String| s@)
    }

    /// A plugin with no script.
    pub fn new() -> (r: InitScriptPlugin)
        ensures
            r.spec_scripts() == Seq::<Seq<char>>::empty(),
    {
        let r = InitScriptPlugin { scripts: Vec::new() };
        proof {
            assert(r.spec_scripts() =~= Seq::<Seq<char>>::empty());
        }
        r
    }

    /// Add a script after the others.
    pub fn with_script(self, script: String) -> (r: InitScriptPlugin)
        ensures
            r.spec_scripts() == self.spec_scripts().push(script@),
    {
        let InitScriptPlugin { mut scripts } = self;
        scripts.push(script);
        let r = InitScriptPlugin { scripts };
        proof {
            assert(r.spec_scripts() =~= self.spec_scripts().push(script@));
        }
        r
    }

    /// The scripts, in the order they run.
    pub fn scripts(&self) -> (r: &Vec<String>)
        ensures
            r@.map_values(|s: String| s@) == self.spec_scripts(),
    {
        &self.scripts
    }

    /// The plugin's name.
    pub fn name(&self) -> (r: &'static str)
        ensures
            r@ == "init-script"@,
    {
        "init-script"
    }

    /// The plugin's priority.
    pub fn priority(&self) -> (r: i32)
        ensures
            r == 50,
    {
        50
    }
}

} // verus!
