use vstd::prelude::*;

use crate::config::Config;
use crate::inodes::KnownInodes;

verus! {

/// The type of a file-system entry, read without following a symbolic link.
#[derive(Debug, Clone, Copy, PartialEq, Eq, Structural)]
pub enum FileKind {
    Regular,
    Directory,
    Symlink,
    Other,
}

/// What one entry's metadata says, read afresh for each entry.
#[derive(Debug, Clone, Copy, PartialEq, Eq, Structural)]
pub struct ItemMeta {
    pub kind: FileKind,
    pub uid: u32,
    pub gid: u32,
    /// The permission bits, setuid, setgid and sticky included.
    pub mode: u32,
    pub inode: u64,
    pub nlink: u64,
}

/// Why an entry cannot be handled.
#[derive(Debug, Clone, Copy, PartialEq, Eq, Structural)]
pub enum ItemError {
    /// Shifting the owner or the group leaves the range of IDs;
    /// holds the entry's current UID and GID.
    Overflow { uid: u32, gid: u32 },
}

/// What is to be done to an entry that is not skipped.
#[derive(Debug, Clone, Copy, PartialEq, Eq, Structural)]
pub struct Change {
    pub target_uid: u32,
    pub target_gid: u32,
    /// Read the file-capability attribute before anything changes.
    pub read_caps: bool,
    /// Change the owner, without following a symbolic link. When this is
    /// false the entry is only described, as in a simulation.
    pub mutate: bool,
    /// Set the original permission bits again after the owner changed,
    /// since changing the owner clears setuid and setgid.
    pub restore_mode: bool,
    /// The permission bits to set again: those the entry had before.
    pub mode: u32,
}

/// The decision for one entry.
#[derive(Debug, Clone, Copy, PartialEq, Eq, Structural)]
pub enum ItemPlan {
    /// A further name of a file with several names that this walk has
    /// already handled: nothing is done, not even a read of its attributes.
    SkipKnownLink,
    Change(Change),
}

/// The entry is a further name of a file that the walk has already met.
pub open spec fn is_known_link(meta: ItemMeta, known: Set<u64>) -> bool {
    meta.nlink > 1 && known.contains(meta.inode)
}

/// The inodes known after an entry was considered: a file with several
/// names is recorded; one with a single name need not be.
pub open spec fn known_after(meta: ItemMeta, known: Set<u64>) -> Set<u64> {
    if meta.nlink > 1 {
        known.insert(meta.inode)
    } else {
        known
    }
}

/// An ID shifted by the offset, as a mathematical integer.
pub open spec fn shifted(id: u32, difference: i32) -> int {
    id as int + difference as int
}

pub open spec fn is_id(x: int) -> bool {
    0 <= x <= u32::MAX
}

/// What is done to an entry that is not skipped, in a pass that simulates
/// or applies.
pub open spec fn change_spec(c: Config, meta: ItemMeta, simulate: bool) -> Result<
    ItemPlan,
    ItemError,
> {
    if !is_id(shifted(meta.uid, c.difference)) || !is_id(shifted(meta.gid, c.difference)) {
        Err(ItemError::Overflow { uid: meta.uid, gid: meta.gid })
    } else {
        let mutate = !(c.dry_run || simulate);
        Ok(
            ItemPlan::Change(
                Change {
                    target_uid: shifted(meta.uid, c.difference) as u32,
                    target_gid: shifted(meta.gid, c.difference) as u32,
                    read_caps: c.with_xattr,
                    mutate,
                    restore_mode: mutate && !c.no_permissions && meta.kind != FileKind::Symlink,
                    mode: meta.mode,
                },
            ),
        )
    }
}

/// The decision for an entry, given the inodes already known in this walk.
pub open spec fn plan_spec(c: Config, meta: ItemMeta, known: Set<u64>, simulate: bool) -> Result<
    ItemPlan,
    ItemError,
> {
    if is_known_link(meta, known) {
        Ok(ItemPlan::SkipKnownLink)
    } else {
        change_spec(c, meta, simulate)
    }
}

/// Decides what is done to one entry and records it among the known inodes
/// when it has several names. `simulate` marks the simulation pass.
pub fn plan_item(c: &Config, meta: &ItemMeta, known: &mut KnownInodes, simulate: bool) -> (r:
    Result<ItemPlan, ItemError>)
    requires
        old(known).wf(),
    ensures
        final(known).wf(),
        final(known)@ == known_after(*meta, old(known)@),
        r == plan_spec(*c, *meta, old(known)@, simulate),
{
    if meta.nlink > 1 {
        if known.contains(meta.inode) {
            return Ok(ItemPlan::SkipKnownLink);
        }
        known.insert(meta.inode);
    }
    let target_uid = meta.uid.checked_add_signed(c.difference);
    let target_gid = meta.gid.checked_add_signed(c.difference);
    match (target_uid, target_gid) {
        (Some(u), Some(g)) => {
            let mutate = !(c.dry_run || simulate);
            let restore_mode = mutate && !c.no_permissions && !matches!(meta.kind, FileKind::Symlink);
            Ok(
                ItemPlan::Change(
                    Change {
                        target_uid: u,
                        target_gid: g,
                        read_caps: c.with_xattr,
                        mutate,
                        restore_mode,
                        mode: meta.mode,
                    },
                ),
            )
        },
        _ => Err(ItemError::Overflow { uid: meta.uid, gid: meta.gid }),
    }
}

/// Decides what is done to the root alone, outside of any walk.
pub fn plan_single(c: &Config, meta: &ItemMeta, simulate: bool) -> (r: Result<ItemPlan, ItemError>)
    ensures
        r == plan_spec(*c, *meta, Set::empty(), simulate),
{
    let mut known = KnownInodes::new();
    plan_item(c, meta, &mut known, simulate)
}

/// What is written back to the capability attribute after the change.
pub open spec fn restored_caps(ch: Change, saved: Option<Vec<u8>>) -> Option<Vec<u8>> {
    if ch.mutate && ch.read_caps {
        saved
    } else {
        None
    }
}

impl Change {
    /// The capability value to write back once the owner has changed, given
    /// what was read before: exactly the bytes read, and nothing when the
    /// attribute was absent or the entry is only described.
    pub fn caps_to_restore(&self, saved: Option<Vec<u8>>) -> (r: Option<Vec<u8>>)
        ensures
            r == restored_caps(*self, saved),
    {
        if self.mutate && self.read_caps {
            saved
        } else {
            None
        }
    }
}

} // verus!
