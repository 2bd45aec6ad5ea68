use vstd::prelude::*;

use crate::config::Config;
use crate::inodes::KnownInodes;
use crate::item::{known_after, plan_item, plan_spec, FileKind, ItemError, ItemMeta, ItemPlan};

verus! {

/// The state of one depth-first walk over a hierarchy: the directories still
/// to be listed, and the inodes met so far, shared by the whole walk.
///
/// The caller lists each directory that `next_dir` hands out, reads each
/// child's metadata without following links, and passes it to `visit`.
pub struct Walk<P> {
    pending: Vec<P>,
    known: KnownInodes,
    simulate: bool,
}

impl<P> Walk<P> {
    pub closed spec fn wf(&self) -> bool {
        self.known.wf()
    }

    /// The directories still to be listed; the last one comes out first.
    pub closed spec fn pending(&self) -> Seq<P> {
        self.pending@
    }

    /// The inodes of entries with several names met so far.
    pub closed spec fn known(&self) -> Set<u64> {
        self.known@
    }

    /// Whether this walk belongs to the simulation pass.
    pub closed spec fn simulating(&self) -> bool {
        self.simulate
    }

    /// A walk that starts by listing `root`, with no inode known yet.
    pub fn new(root: P, simulate: bool) -> (r: Walk<P>)
        ensures
            r.wf(),
            r.pending() == seq![root],
            r.known() == Set::<u64>::empty(),
            r.simulating() == simulate,
    {
        let mut pending: Vec<P> = Vec::new();
        pending.push(root);
        Walk { pending, known: KnownInodes::new(), simulate }
    }

    /// The next directory to list, or `None` when the walk is over.
    pub fn next_dir(&mut self) -> (r: Option<P>)
        requires
            old(self).wf(),
        ensures
            final(self).wf(),
            final(self).known() == old(self).known(),
            final(self).simulating() == old(self).simulating(),
            old(self).pending().len() == 0 ==> r.is_none() && final(self).pending() == old(
                self,
            ).pending(),
            old(self).pending().len() > 0 ==> r == Some(old(self).pending().last())
                && final(self).pending() == old(self).pending().drop_last(),
    {
        self.pending.pop()
    }

    /// Decides what is done to one child of the directory being listed. A
    /// child that is a directory is kept to be listed later.
    pub fn visit(&mut self, c: &Config, meta: &ItemMeta, path: P) -> (r: Result<ItemPlan, ItemError>)
        requires
            old(self).wf(),
        ensures
            final(self).wf(),
            final(self).simulating() == old(self).simulating(),
            final(self).known() == known_after(*meta, old(self).known()),
            final(self).pending() == (if meta.kind == FileKind::Directory {
                old(self).pending().push(path)
            } else {
                old(self).pending()
            }),
            r == plan_spec(*c, *meta, old(self).known(), old(self).simulating()),
    {
        if matches!(meta.kind, FileKind::Directory) {
            self.pending.push(path);
        }
        plan_item(c, meta, &mut self.known, self.simulate)
    }
}

} // verus!
