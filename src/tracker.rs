//! Tracking which fields of a resource were set.

use vstd::prelude::*;

verus! {

/// Which fields of a resource were set since it was last loaded or saved.
/// Field `i` is tracked by flag `i`.
#[derive(Clone, Debug)]
pub struct ChangeTracker {
    flags: Vec<bool>,
}

impl View for ChangeTracker {
    type V = Seq<bool>;

    closed spec fn view(&self) -> Seq<bool> {
        self.flags@
    }
}

/// `n` fields, none of them set.
pub open spec fn all_clean(n: nat) -> Seq<bool> {
    Seq::new(n, |i: int| false)
}

impl ChangeTracker {
    /// A tracker of `n` fields, none of them set.
    pub fn new(n: usize) -> (r: ChangeTracker)
        ensures
            r@ == all_clean(n as nat),
    {
        let mut flags: Vec<bool> = Vec::new();
        let mut i: usize = 0;
        while i < n
            invariant
                i <= n,
                flags@ == all_clean(i as nat),
            decreases n - i,
        {
            flags.push(false);
            i = i + 1;
            assert(flags@ =~= all_clean(i as nat));
        }
        ChangeTracker { flags }
    }

    /// Record that field `i` was set.
    pub fn mark(&mut self, i: usize)
        requires
            i < old(self)@.len(),
        ensures
            final(self)@ == old(self)@.update(i as int, true),
    {
        self.flags.set(i, true);
    }

    /// Whether field `i` was set.
    pub fn is_marked(&self, i: usize) -> (r: bool)
        requires
            i < self@.len(),
        ensures
            r == self@[i as int],
    {
        self.flags[i]
    }

    /// Whether any field was set.
    pub fn is_dirty(&self) -> (r: bool)
        ensures
            r == exists|i: int| 0 <= i < self@.len() && #[trigger] self@[i],
    {
        let mut i: usize = 0;
        while i < self.flags.len()
            invariant
                i <= self@.len(),
                forall|k: int| 0 <= k < i ==> !#[trigger] self@[k],
            decreases self@.len() - i,
        {
            if self.flags[i] {
                return true;
            }
            i = i + 1;
        }
        false
    }

    /// Forget all changes.
    pub fn clear(&mut self)
        ensures
            final(self)@ == all_clean(old(self)@.len()),
    {
        let n = self.flags.len();
        let mut i: usize = 0;
        while i < n
            invariant
                n == self@.len(),
                n == old(self)@.len(),
                i <= n,
                forall|k: int| 0 <= k < i ==> !#[trigger] self@[k],
            decreases n - i,
        {
            self.flags.set(i, false);
            i = i + 1;
        }
        assert(self@ =~= all_clean(n as nat));
    }
}

} // verus!
