use vstd::prelude::*;

use crate::config::{pass_plan, Config};
use crate::item::{
    change_spec, is_id, is_known_link, known_after, plan_spec, restored_caps, shifted, Change,
    FileKind, ItemError, ItemMeta, ItemPlan,
};

verus! {

/// A file with a single name is never skipped, and in a pass that applies,
/// with both IDs in range, its owner is changed once.
pub proof fn lemma_single_name_changed(c: Config, meta: ItemMeta, known: Set<u64>, simulate: bool)
    requires
        meta.nlink == 1,
        !simulate,
        !c.dry_run,
        is_id(shifted(meta.uid, c.difference)),
        is_id(shifted(meta.gid, c.difference)),
    ensures
        known_after(meta, known) == known,
        plan_spec(c, meta, known, simulate) matches Ok(ItemPlan::Change(ch)) && ch.mutate
            && ch.target_uid == shifted(meta.uid, c.difference)
            && ch.target_gid == shifted(meta.gid, c.difference),
{
}

/// The inodes known after a walk has considered `metas` in order,
/// starting from `known`.
pub open spec fn known_through(known: Set<u64>, metas: Seq<ItemMeta>) -> Set<u64>
    decreases metas.len(),
{
    if metas.len() == 0 {
        known
    } else {
        known_after(metas.last(), known_through(known, metas.drop_last()))
    }
}

/// The decision for the entry at `i` of a walk that considers `metas` in order.
pub open spec fn plan_in_walk(c: Config, known: Set<u64>, metas: Seq<ItemMeta>, i: int, simulate: bool) -> Result<
    ItemPlan,
    ItemError,
> {
    plan_spec(c, metas[i], known_through(known, metas.take(i)), simulate)
}

/// An inode is known after a walk exactly when it was known at the start or
/// belongs to an entry with several names that the walk considered.
pub proof fn lemma_known_through(known: Set<u64>, metas: Seq<ItemMeta>, x: u64)
    ensures
        known_through(known, metas).contains(x) <==> (known.contains(x) || exists|k: int|
            0 <= k < metas.len() && metas[k].nlink > 1 && metas[k].inode == x),
    decreases metas.len(),
{
    if metas.len() > 0 {
        let rest = metas.drop_last();
        lemma_known_through(known, rest, x);
        if exists|k: int| 0 <= k < metas.len() && metas[k].nlink > 1 && metas[k].inode == x {
            let k = choose|k: int| 0 <= k < metas.len() && metas[k].nlink > 1 && metas[k].inode == x;
            if k < rest.len() {
                assert(rest[k] == metas[k]);
            }
        }
        if exists|k: int| 0 <= k < rest.len() && rest[k].nlink > 1 && rest[k].inode == x {
            let k = choose|k: int| 0 <= k < rest.len() && rest[k].nlink > 1 && rest[k].inode == x;
            assert(metas[k] == rest[k]);
        }
    }
}

/// Of the names of one file with several names, met in one walk that starts
/// with no inode known, the first is handled and every later one is skipped.
pub proof fn lemma_hard_link_handled_once(
    c: Config,
    metas: Seq<ItemMeta>,
    i: int,
    j: int,
    simulate: bool,
)
    requires
        0 <= i < j < metas.len(),
        metas[i].inode == metas[j].inode,
        metas[i].nlink > 1,
        metas[j].nlink > 1,
    ensures
        plan_in_walk(c, Set::empty(), metas, j, simulate) == Ok::<ItemPlan, ItemError>(
            ItemPlan::SkipKnownLink,
        ),
        (forall|k: int|
            0 <= k < i ==> !(metas[k].nlink > 1 && metas[k].inode == metas[i].inode)) ==> plan_in_walk(
            c,
            Set::empty(),
            metas,
            i,
            simulate,
        ) == change_spec(c, metas[i], simulate),
{
    let x = metas[i].inode;
    lemma_known_through(Set::empty(), metas.take(j), x);
    assert(metas.take(j)[i] == metas[i]);
    lemma_known_through(Set::empty(), metas.take(i), x);
    if forall|k: int| 0 <= k < i ==> !(metas[k].nlink > 1 && metas[k].inode == metas[i].inode) {
        if exists|k: int|
            0 <= k < metas.take(i).len() && metas.take(i)[k].nlink > 1 && metas.take(i)[k].inode
                == x {
            let k = choose|k: int|
                0 <= k < metas.take(i).len() && metas.take(i)[k].nlink > 1
                    && metas.take(i)[k].inode == x;
            assert(metas.take(i)[k] == metas[k]);
        }
    }
}

/// A further name that is skipped leaves the known inodes as they were.
pub proof fn lemma_skip_changes_nothing(meta: ItemMeta, known: Set<u64>)
    requires
        is_known_link(meta, known),
    ensures
        known_after(meta, known) == known,
{
    assert(known.insert(meta.inode) =~= known);
}

/// With a zero offset every entry that is handled keeps its owner and group,
/// so a second run finds the same IDs and decides the same.
pub proof fn lemma_zero_difference(c: Config, meta: ItemMeta, known: Set<u64>, simulate: bool)
    requires
        c.difference == 0,
        !is_known_link(meta, known),
    ensures
        plan_spec(c, meta, known, simulate) matches Ok(ItemPlan::Change(ch)) && ch.target_uid
            == meta.uid && ch.target_gid == meta.gid,
{
}

/// An entry whose shifted UID or GID leaves the range fails with the
/// overflow error, and nothing is planned for it.
pub proof fn lemma_overflow_fails(c: Config, meta: ItemMeta, known: Set<u64>, simulate: bool)
    requires
        !is_known_link(meta, known),
        !is_id(shifted(meta.uid, c.difference)) || !is_id(shifted(meta.gid, c.difference)),
    ensures
        plan_spec(c, meta, known, simulate) == Err::<ItemPlan, ItemError>(
            ItemError::Overflow { uid: meta.uid, gid: meta.gid },
        ),
{
}

/// A dry run has the simulation pass alone, and no decision in it changes an
/// owner, permission bits or an attribute.
pub proof fn lemma_dry_run_changes_nothing(
    c: Config,
    meta: ItemMeta,
    known: Set<u64>,
    simulate: bool,
    saved: Option<Vec<u8>>,
)
    requires
        c.dry_run,
    ensures
        pass_plan(c) == seq![true],
        !(plan_spec(c, meta, known, simulate) matches Ok(ItemPlan::Change(ch)) && (ch.mutate
            || ch.restore_mode || restored_caps(ch, saved) is Some)),
{
}

/// The permission bits of a symbolic link are never set again.
pub proof fn lemma_symlink_mode_untouched(c: Config, meta: ItemMeta, known: Set<u64>, simulate: bool)
    requires
        meta.kind == FileKind::Symlink,
    ensures
        !(plan_spec(c, meta, known, simulate) matches Ok(ItemPlan::Change(ch)) && ch.restore_mode),
{
}

/// When the owner of an entry is changed with the capability attribute
/// carried, exactly what was read is written back: the same bytes when it
/// was present, and nothing when it was absent.
pub proof fn lemma_caps_round_trip(ch: Change, saved: Option<Vec<u8>>)
    requires
        ch.read_caps,
        ch.mutate,
    ensures
        restored_caps(ch, saved) == saved,
{
}

/// A decision that changes an owner reads the capability attribute exactly
/// when the run carries it.
pub proof fn lemma_caps_read_when_carried(c: Config, meta: ItemMeta, known: Set<u64>, simulate: bool)
    ensures
        plan_spec(c, meta, known, simulate) matches Ok(ItemPlan::Change(ch)) ==> ch.read_caps
            == c.with_xattr,
{
}

} // verus!
