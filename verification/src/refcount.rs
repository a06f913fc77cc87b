//! The reference count of a delegate context shared with the bridge.
//!
//! The crate holds the first reference; the bridge's delegate object takes
//! one more when it is made and drops it when it goes away, so a callback
//! still running on the framework's queue never sees a freed context. The
//! context is freed by the release that drops the last reference.
use vstd::prelude::*;

verus! {

/// One operation on a reference count.
pub enum RefCountOp {
    /// Take one more reference.
    Retain,
    /// Drop one reference.
    Release,
}

/// The count after one operation, and whether that operation freed the
/// context: a release frees it when it drops the last reference.
pub open spec fn ref_count_step(count: nat, op: RefCountOp) -> (nat, bool) {
    match op {
        RefCountOp::Retain => ((count + 1) as nat, false),
        RefCountOp::Release => ((count - 1) as nat, count == 1),
    }
}

/// The count after the operations, starting from the single initial
/// reference.
pub open spec fn ref_count_after(ops: Seq<RefCountOp>) -> nat
    decreases ops.len(),
{
    if ops.len() == 0 {
        1
    } else {
        ref_count_step(ref_count_after(ops.drop_last()), ops.last()).0
    }
}

/// How many of the operations freed the context.
pub open spec fn frees_in(ops: Seq<RefCountOp>) -> nat
    decreases ops.len(),
{
    if ops.len() == 0 {
        0
    } else {
        frees_in(ops.drop_last()) + if ref_count_step(ref_count_after(ops.drop_last()), ops.last()).1 {
            1nat
        } else {
            0nat
        }
    }
}

/// Every operation is made while the context is live: some reference is
/// held before it. A release then drops a held reference, and no reference
/// is taken to a freed context.
pub open spec fn made_while_live(ops: Seq<RefCountOp>) -> bool
    decreases ops.len(),
{
    if ops.len() == 0 {
        true
    } else {
        made_while_live(ops.drop_last()) && ref_count_after(ops.drop_last()) > 0
    }
}

/// How many of the operations are retains.
pub open spec fn retains_in(ops: Seq<RefCountOp>) -> nat
    decreases ops.len(),
{
    if ops.len() == 0 {
        0
    } else {
        retains_in(ops.drop_last()) + if ops.last() is Retain {
            1nat
        } else {
            0nat
        }
    }
}

/// How many of the operations are releases.
pub open spec fn releases_in(ops: Seq<RefCountOp>) -> nat
    decreases ops.len(),
{
    if ops.len() == 0 {
        0
    } else {
        releases_in(ops.drop_last()) + if ops.last() is Release {
            1nat
        } else {
            0nat
        }
    }
}

/// Starting from the single initial reference, with every operation made on
/// a live context: the count is one more than the retains less the
/// releases; the context is freed exactly once when the releases are one
/// more than the retains, and never otherwise; and before the last
/// operation no operation frees it, so the context stays live until then.
pub proof fn lemma_freed_once_at_zero(ops: Seq<RefCountOp>)
    requires
        made_while_live(ops),
    ensures
        ref_count_after(ops) == 1 + retains_in(ops) - releases_in(ops),
        frees_in(ops) == if releases_in(ops) == retains_in(ops) + 1 {
            1nat
        } else {
            0nat
        },
        forall|k: int|
            0 <= k < ops.len() ==> ref_count_after(#[trigger] ops.take(k)) > 0 && frees_in(
                ops.take(k),
            ) == 0,
    decreases ops.len(),
{
    if ops.len() > 0 {
        let prefix = ops.drop_last();
        lemma_freed_once_at_zero(prefix);
        assert forall|k: int| 0 <= k < ops.len() implies ref_count_after(#[trigger] ops.take(k))
            > 0 && frees_in(ops.take(k)) == 0 by {
            if k < prefix.len() {
                assert(ops.take(k) =~= prefix.take(k));
            } else {
                assert(ops.take(k) =~= prefix);
            }
        }
    }
}

/// The reference count embedded in every context shared with the bridge.
pub struct RefCount {
    count: usize,
}

impl View for RefCount {
    type V = nat;

    closed spec fn view(&self) -> nat {
        self.count as nat
    }
}

impl RefCount {
    /// A count holding the single initial, crate-owned reference.
    pub fn new() -> (r: RefCount)
        ensures
            r@ == 1,
    {
        RefCount { count: 1 }
    }

    /// The number of references held.
    pub fn count(&self) -> (n: usize)
        ensures
            n == self@,
    {
        self.count
    }

    /// Takes one more reference.
    pub fn retain(&mut self)
        requires
            old(self)@ < usize::MAX,
        ensures
            final(self)@ == ref_count_step(old(self)@, RefCountOp::Retain).0,
    {
        self.count = self.count + 1;
    }

    /// Drops one held reference, returning whether it was the last one, in
    /// which case the context is to be freed.
    pub fn release(&mut self) -> (freed: bool)
        requires
            old(self)@ > 0,
        ensures
            (final(self)@, freed) == ref_count_step(old(self)@, RefCountOp::Release),
    {
        self.count = self.count - 1;
        self.count == 0
    }
}

} // verus!
