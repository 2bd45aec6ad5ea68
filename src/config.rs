use vstd::prelude::*;

verus! {

/// The settings of one run. Created once and only read afterwards.
#[derive(Debug, Clone, Copy, PartialEq, Eq, Structural)]
pub struct Config {
    /// The signed amount added to every UID and GID.
    pub difference: i32,
    /// Walk the whole hierarchy below the root.
    pub recursive: bool,
    /// Describe each decision on standard output.
    pub verbose: bool,
    /// Leave permission bits as the ownership change left them.
    pub no_permissions: bool,
    /// Carry the file-capability attribute across the ownership change.
    pub with_xattr: bool,
    /// Run the simulation pass only.
    pub dry_run: bool,
}

impl Default for Config {
    fn default() -> (r: Config)
        ensures
            r.difference == 0,
            !r.recursive,
            !r.verbose,
            !r.no_permissions,
            !r.with_xattr,
            !r.dry_run,
    {
        Config {
            difference: 0,
            recursive: false,
            verbose: false,
            no_permissions: false,
            with_xattr: false,
            dry_run: false,
        }
    }
}

impl Config {
    /// The passes of one run, in order: `true` marks the simulation pass.
    /// A dry run stops after the simulation pass.
    pub fn passes(&self) -> (r: Vec<bool>)
        ensures
            r@ == pass_plan(*self),
    {
        let mut r: Vec<bool> = Vec::new();
        r.push(true);
        if !self.dry_run {
            r.push(false);
        }
        r
    }
}

/// The simulation pass, followed by the applying pass unless this is a dry run.
pub open spec fn pass_plan(c: Config) -> Seq<bool> {
    if c.dry_run {
        seq![true]
    } else {
        seq![true, false]
    }
}

} // verus!
