//! The table of ports that instances have claimed.

use std::collections::HashSet;
use vstd::prelude::*;

verus! {

broadcast use vstd::std_specs::hash::group_hash_axioms;

/// The ports that are currently claimed. Its view is the set of those ports.
pub struct PortManager {
    allocated: HashSet<u32>,
}

impl View for PortManager {
    type V = Set<u32>;

    closed spec fn view(&self) -> Set<u32> {
        self.allocated@
    }
}

impl PortManager {
    /// A table in which every port is free.
    pub fn new() -> (table: PortManager)
        ensures
            table@ == Set::<u32>::empty(),
    {
        PortManager { allocated: HashSet::new() }
    }

    /// Claims `port` if nobody holds it. Returns whether the claim was
    /// made; `false` means that the port was in use and nothing changed.
    pub fn allocate_if_free(&mut self, port: u32) -> (granted: bool)
        ensures
            granted == !old(self)@.contains(port),
            final(self)@ == old(self)@.insert(port),
    {
        self.allocated.insert(port)
    }

    /// Gives `port` back. Releasing a port that nobody holds changes nothing.
    pub fn release(&mut self, port: u32)
        ensures
            final(self)@ == old(self)@.remove(port),
    {
        self.allocated.remove(&port);
    }

    /// Whether nobody holds `port`.
    pub fn is_free(&self, port: u32) -> (free: bool)
        ensures
            free == !self@.contains(port),
    {
        !self.allocated.contains(&port)
    }
}

/// One call on the table, as a value.
pub enum PortOp {
    Allocate(u32),
    Release(u32),
}

/// The table after `op`.
pub open spec fn apply_op(table: Set<u32>, op: PortOp) -> Set<u32> {
    match op {
        PortOp::Allocate(port) => table.insert(port),
        PortOp::Release(port) => table.remove(port),
    }
}

/// The table after the calls of `ops`, made in order on an empty table.
pub open spec fn replay(ops: Seq<PortOp>) -> Set<u32>
    decreases ops.len(),
{
    if ops.len() == 0 {
        Set::empty()
    } else {
        apply_op(replay(ops.drop_last()), ops.last())
    }
}

/// How many calls of `ops` claimed `port` with success.
pub open spec fn grants(ops: Seq<PortOp>, port: u32) -> nat
    decreases ops.len(),
{
    if ops.len() == 0 {
        0
    } else {
        let before = ops.drop_last();
        let granted = ops.last() == PortOp::Allocate(port) && !replay(before).contains(port);
        grants(before, port) + if granted { 1nat } else { 0nat }
    }
}

/// How many calls of `ops` gave `port` back while it was held.
pub open spec fn returns_of(ops: Seq<PortOp>, port: u32) -> nat
    decreases ops.len(),
{
    if ops.len() == 0 {
        0
    } else {
        let before = ops.drop_last();
        let returned = ops.last() == PortOp::Release(port) && replay(before).contains(port);
        returns_of(before, port) + if returned { 1nat } else { 0nat }
    }
}

/// After any sequence of calls, a port is free exactly when it was given
/// back as often as it was granted; while it is held, it was granted once
/// more than it was given back. A refused claim and the release of a free
/// port count as neither.
pub proof fn lemma_free_iff_balanced(ops: Seq<PortOp>, port: u32)
    ensures
        !replay(ops).contains(port) <==> grants(ops, port) == returns_of(ops, port),
        replay(ops).contains(port) <==> grants(ops, port) == returns_of(ops, port) + 1,
    decreases ops.len(),
{
    if ops.len() > 0 {
        lemma_free_iff_balanced(ops.drop_last(), port);
    }
}

/// A port that was just released is free and a port that was just
/// claimed is held, whatever went before.
pub proof fn lemma_last_call_decides(ops: Seq<PortOp>, port: u32)
    ensures
        !replay(ops.push(PortOp::Release(port))).contains(port),
        replay(ops.push(PortOp::Allocate(port))).contains(port),
{
}

/// How many calls of `ops` ask for `port`, granted or not.
pub open spec fn allocations(ops: Seq<PortOp>, port: u32) -> nat
    decreases ops.len(),
{
    if ops.len() == 0 {
        0
    } else {
        allocations(ops.drop_last(), port) + if ops.last() == PortOp::Allocate(port) {
            1nat
        } else {
            0nat
        }
    }
}

/// How many calls of `ops` release `port`, held or not.
pub open spec fn releases(ops: Seq<PortOp>, port: u32) -> nat
    decreases ops.len(),
{
    if ops.len() == 0 {
        0
    } else {
        releases(ops.drop_last(), port) + if ops.last() == PortOp::Release(port) {
            1nat
        } else {
            0nat
        }
    }
}

/// Whether every call of `ops` for `port` has an effect: the port is asked
/// for only while it is free and released only while it is held.
pub open spec fn disciplined(ops: Seq<PortOp>, port: u32) -> bool
    decreases ops.len(),
{
    if ops.len() == 0 {
        true
    } else {
        let before = ops.drop_last();
        &&& disciplined(before, port)
        &&& ops.last() == PortOp::Allocate(port) ==> !replay(before).contains(port)
        &&& ops.last() == PortOp::Release(port) ==> replay(before).contains(port)
    }
}

/// As long as a port is asked for only while it is free and released only
/// while it is held, the port is free exactly when it was released as
/// often as it was allocated, and it is never allocated more than once
/// more than it was released.
pub proof fn lemma_free_iff_allocations_equal_releases(ops: Seq<PortOp>, port: u32)
    requires
        disciplined(ops, port),
    ensures
        allocations(ops, port) == grants(ops, port),
        releases(ops, port) == returns_of(ops, port),
        !replay(ops).contains(port) <==> allocations(ops, port) - releases(ops, port) == 0,
        replay(ops).contains(port) <==> allocations(ops, port) - releases(ops, port) == 1,
    decreases ops.len(),
{
    lemma_free_iff_balanced(ops, port);
    if ops.len() > 0 {
        lemma_free_iff_allocations_equal_releases(ops.drop_last(), port);
    }
}

} // verus!
