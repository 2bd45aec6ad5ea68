use vstd::prelude::*;

verus! {

/// The inode numbers met so far in one walk, each recorded once.
pub struct KnownInodes {
    inodes: Vec<u64>,
}

impl View for KnownInodes {
    type V = Set<u64>;

    closed spec fn view(&self) -> Set<u64> {
        self.inodes@.to_set()
    }
}

impl KnownInodes {
    /// No inode number is recorded twice.
    pub closed spec fn wf(&self) -> bool {
        self.inodes@.no_duplicates()
    }

    /// How many inode numbers have been recorded.
    pub closed spec fn count(&self) -> nat {
        self.inodes@.len()
    }

    pub fn new() -> (r: KnownInodes)
        ensures
            r.wf(),
            r@ == Set::<u64>::empty(),
            r.count() == 0,
    {
        let r = KnownInodes { inodes: Vec::new() };
        proof {
            assert(r@ =~= Set::<u64>::empty());
        }
        r
    }

    pub fn contains(&self, inode: u64) -> (r: bool)
        ensures
            r == self@.contains(inode),
    {
        let mut i: usize = 0;
        while i < self.inodes.len()
            invariant
                i <= self.inodes@.len(),
                forall|j: int| 0 <= j < i ==> self.inodes@[j] != inode,
            decreases self.inodes@.len() - i,
        {
            if self.inodes[i] == inode {
                proof {
                    assert(self.inodes@.contains(self.inodes@[i as int]));
                }
                return true;
            }
            i = i + 1;
        }
        false
    }

    /// Records an inode number that is not yet known.
    pub fn insert(&mut self, inode: u64)
        requires
            old(self).wf(),
            !old(self)@.contains(inode),
        ensures
            final(self).wf(),
            final(self)@ == old(self)@.insert(inode),
            final(self).count() == old(self).count() + 1,
    {
        let ghost before = self.inodes@;
        self.inodes.push(inode);
        proof {
            assert(self.inodes@ == before.push(inode));
            assert forall|x: u64| self.inodes@.contains(x) <==> (before.contains(x) || x == inode) by {
                if self.inodes@.contains(x) {
                    let j = choose|j: int| 0 <= j < self.inodes@.len() && self.inodes@[j] == x;
                    if j < before.len() {
                        assert(before[j] == x);
                    }
                }
                if before.contains(x) {
                    let j = choose|j: int| 0 <= j < before.len() && before[j] == x;
                    assert(self.inodes@[j] == x);
                }
                if x == inode {
                    assert(self.inodes@[before.len() as int] == x);
                }
            }
            assert(self@ =~= old(self)@.insert(inode));
            assert forall|a: int, b: int|
                0 <= a < self.inodes@.len() && 0 <= b < self.inodes@.len() && a != b
                implies self.inodes@[a] != self.inodes@[b] by {
                if a == before.len() as int {
                    assert(before.contains(before[b]));
                } else if b == before.len() as int {
                    assert(before.contains(before[a]));
                }
            }
        }
    }
}

} // verus!
