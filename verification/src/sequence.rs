//! Sequence numbers for the records created under a parent.
//!
//! A parent's counter is the number of children it has so far. The next child
//! takes the counter as its id, and the parent keeps the counter plus one; the
//! two belong to one step of the ledger.

use vstd::prelude::*;

verus! {

/// What a parent hands out: the id of the next child, and the counter to keep.
#[derive(Clone, Copy, Debug, PartialEq, Eq, Structural)]
pub struct Issued {
    pub id: u64,
    pub counter: u64,
}

/// The id that a counter issues.
pub open spec fn spec_issued_id(counter: nat) -> nat {
    counter
}

/// The counter after it has issued one id.
pub open spec fn spec_advance(counter: nat) -> nat {
    counter + 1
}

/// Issues the next id of a counter.
pub fn next(counter: u64) -> (issued: Issued)
    requires
        counter < u64::MAX,
    ensures
        issued.id == spec_issued_id(counter as nat),
        issued.counter == spec_advance(counter as nat),
{
    Issued { id: counter, counter: counter + 1 }
}

} // verus!
