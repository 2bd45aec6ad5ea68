use chownshift::config::Config;
use chownshift::inodes::KnownInodes;
use chownshift::item::{plan_item, plan_single, Change, FileKind, ItemError, ItemMeta, ItemPlan};
use chownshift::walk::Walk;

fn config(difference: i32) -> Config {
    Config { difference, ..Config::default() }
}

fn regular(uid: u32, gid: u32, mode: u32, inode: u64, nlink: u64) -> ItemMeta {
    ItemMeta { kind: FileKind::Regular, uid, gid, mode, inode, nlink }
}

fn change(uid: u32, gid: u32, mutate: bool, restore_mode: bool, mode: u32) -> ItemPlan {
    ItemPlan::Change(Change {
        target_uid: uid,
        target_gid: gid,
        read_caps: false,
        mutate,
        restore_mode,
        mode,
    })
}

#[test]
fn default_config_is_all_off() {
    let c = Config::default();
    assert_eq!(c.difference, 0);
    assert!(!c.recursive && !c.verbose && !c.no_permissions && !c.with_xattr && !c.dry_run);
}

#[test]
fn passes_simulate_then_apply() {
    assert_eq!(config(3).passes(), vec![true, false]);
}

#[test]
fn dry_run_has_simulation_pass_only() {
    let c = Config { dry_run: true, ..config(3) };
    assert_eq!(c.passes(), vec![true]);
}

#[test]
fn shift_by_five_non_recursive() {
    let c = config(5);
    let m = regular(1000, 1000, 0o644, 11, 1);
    assert_eq!(plan_single(&c, &m, true), Ok(change(1005, 1005, false, false, 0o644)));
    assert_eq!(plan_single(&c, &m, false), Ok(change(1005, 1005, true, true, 0o644)));
}

#[test]
fn shift_below_zero_overflows() {
    let c = config(-2000);
    let m = regular(1000, 1000, 0o644, 11, 1);
    assert_eq!(plan_single(&c, &m, true), Err(ItemError::Overflow { uid: 1000, gid: 1000 }));
    assert_eq!(plan_single(&c, &m, false), Err(ItemError::Overflow { uid: 1000, gid: 1000 }));
}

#[test]
fn shift_above_max_overflows() {
    let c = config(1);
    let m = regular(7, u32::MAX, 0o644, 11, 1);
    assert_eq!(plan_single(&c, &m, false), Err(ItemError::Overflow { uid: 7, gid: u32::MAX }));
}

#[test]
fn shift_to_largest_id() {
    let c = config(1);
    let m = regular(u32::MAX - 1, 0, 0o600, 11, 1);
    assert_eq!(plan_single(&c, &m, false), Ok(change(u32::MAX, 1, true, true, 0o600)));
}

#[test]
fn shift_down_to_zero() {
    let c = config(-1000);
    let m = regular(1000, 1001, 0o4755, 11, 1);
    assert_eq!(plan_single(&c, &m, false), Ok(change(0, 1, true, true, 0o4755)));
}

#[test]
fn hard_links_handled_once_in_walk() {
    let c = Config { recursive: true, verbose: true, ..config(1) };
    let mut walk: Walk<&str> = Walk::new("dir", false);
    assert_eq!(walk.next_dir(), Some("dir"));
    let link = regular(0, 0, 0o644, 42, 2);
    let first = walk.visit(&c, &link, "dir/a");
    let second = walk.visit(&c, &link, "dir/b");
    assert_eq!(first, Ok(change(1, 1, true, true, 0o644)));
    assert_eq!(second, Ok(ItemPlan::SkipKnownLink));
    assert_eq!(walk.next_dir(), None);
}

#[test]
fn hard_link_skipped_even_when_it_would_overflow() {
    let c = config(-1);
    let mut known = KnownInodes::new();
    let first = regular(5, 5, 0o644, 3, 2);
    let later = regular(0, 0, 0o644, 3, 2);
    assert_eq!(plan_item(&c, &first, &mut known, false), Ok(change(4, 4, true, true, 0o644)));
    assert_eq!(plan_item(&c, &later, &mut known, false), Ok(ItemPlan::SkipKnownLink));
}

#[test]
fn single_name_files_never_skipped() {
    let c = config(2);
    let mut known = KnownInodes::new();
    let m = regular(10, 20, 0o644, 8, 1);
    assert_eq!(plan_item(&c, &m, &mut known, false), Ok(change(12, 22, true, true, 0o644)));
    assert_eq!(plan_item(&c, &m, &mut known, false), Ok(change(12, 22, true, true, 0o644)));
    assert!(!known.contains(8));
}

#[test]
fn known_inodes_record_links() {
    let c = config(0);
    let mut known = KnownInodes::new();
    assert!(!known.contains(9));
    let m = regular(1, 1, 0o644, 9, 3);
    let _ = plan_item(&c, &m, &mut known, true);
    assert!(known.contains(9));
    assert!(!known.contains(10));
    known.insert(10);
    assert!(known.contains(10));
}

#[test]
fn walk_queues_directories_last_in_first_out() {
    let c = config(0);
    let mut walk: Walk<&str> = Walk::new("root", true);
    assert_eq!(walk.next_dir(), Some("root"));
    let dir = ItemMeta { kind: FileKind::Directory, uid: 0, gid: 0, mode: 0o755, inode: 1, nlink: 2 };
    let dir2 = ItemMeta { inode: 2, ..dir };
    let file = regular(0, 0, 0o644, 3, 1);
    assert_eq!(walk.visit(&c, &dir, "root/a"), Ok(change(0, 0, false, false, 0o755)));
    assert_eq!(walk.visit(&c, &file, "root/f"), Ok(change(0, 0, false, false, 0o644)));
    assert_eq!(walk.visit(&c, &dir2, "root/b"), Ok(change(0, 0, false, false, 0o755)));
    assert_eq!(walk.next_dir(), Some("root/b"));
    assert_eq!(walk.next_dir(), Some("root/a"));
    assert_eq!(walk.next_dir(), None);
}

#[test]
fn zero_difference_keeps_ids() {
    let c = config(0);
    let m = regular(1234, 5678, 0o640, 4, 1);
    assert_eq!(plan_single(&c, &m, false), Ok(change(1234, 5678, true, true, 0o640)));
    let again = regular(1234, 5678, 0o640, 4, 1);
    assert_eq!(plan_single(&c, &again, false), plan_single(&c, &m, false));
}

#[test]
fn dry_run_never_mutates() {
    let c = Config { dry_run: true, with_xattr: true, recursive: true, ..config(7) };
    let m = regular(1, 2, 0o644, 4, 1);
    let expected = ItemPlan::Change(Change {
        target_uid: 8,
        target_gid: 9,
        read_caps: true,
        mutate: false,
        restore_mode: false,
        mode: 0o644,
    });
    assert_eq!(plan_single(&c, &m, false), Ok(expected));
    if let Ok(ItemPlan::Change(ch)) = plan_single(&c, &m, false) {
        assert_eq!(ch.caps_to_restore(Some(vec![1, 2, 3])), None);
    }
}

#[test]
fn symlink_mode_never_restored() {
    let c = config(1);
    let m = ItemMeta { kind: FileKind::Symlink, uid: 1, gid: 1, mode: 0o777, inode: 5, nlink: 1 };
    assert_eq!(plan_single(&c, &m, false), Ok(change(2, 2, true, false, 0o777)));
}

#[test]
fn no_permissions_skips_mode() {
    let c = Config { no_permissions: true, ..config(1) };
    let m = regular(1, 1, 0o2755, 5, 1);
    assert_eq!(plan_single(&c, &m, false), Ok(change(2, 2, true, false, 0o2755)));
}

#[test]
fn caps_round_trip() {
    let c = Config { with_xattr: true, ..config(1) };
    let m = regular(1, 1, 0o755, 5, 1);
    let ch = match plan_single(&c, &m, false) {
        Ok(ItemPlan::Change(ch)) => ch,
        other => panic!("unexpected {:?}", other),
    };
    assert!(ch.read_caps);
    assert_eq!(ch.caps_to_restore(Some(vec![1, 0, 0, 2])), Some(vec![1, 0, 0, 2]));
    assert_eq!(ch.caps_to_restore(None), None);
}

#[test]
fn caps_read_in_simulation_but_not_restored() {
    let c = Config { with_xattr: true, ..config(1) };
    let m = regular(1, 1, 0o755, 5, 1);
    let ch = match plan_single(&c, &m, true) {
        Ok(ItemPlan::Change(ch)) => ch,
        other => panic!("unexpected {:?}", other),
    };
    assert!(ch.read_caps);
    assert!(!ch.mutate);
    assert_eq!(ch.caps_to_restore(Some(vec![4])), None);
}
