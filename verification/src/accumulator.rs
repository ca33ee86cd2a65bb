//! The shared accumulator: a signed cell of pending directional impulses.
//!
//! Button monitors `add` a signed step per click; the render loop `drain`s
//! the cell once per tick, receiving the net sum of everything added since
//! the previous drain. `Accumulator` is the plain sequential cell;
//! `SharedAccumulator` wraps it in a critical section so that concurrently
//! scheduled tasks may share it.

use vstd::prelude::*;

verus! {

/// The pending sum of directional impulses that no drain has consumed yet.
pub struct Accumulator {
    pending: i32,
}

impl View for Accumulator {
    type V = int;

    /// The abstract state is the pending sum itself.
    closed spec fn view(&self) -> int {
        self.pending as int
    }
}

impl Accumulator {
    /// A fresh accumulator holds no pending impulses.
    pub fn new() -> (r: Accumulator)
        ensures
            r@ == 0,
    {
        Accumulator { pending: 0 }
    }

    /// Add one directional impulse to the pending sum.
    pub fn add(&mut self, delta: i32)
        requires
            i32::MIN <= old(self)@ + delta <= i32::MAX,
        ensures
            final(self)@ == old(self)@ + delta,
    {
        self.pending = self.pending + delta;
    }

    /// Total variant of `add`: the impulse is applied exactly when the sum
    /// stays representable, and dropped (with `false` returned) otherwise.
    pub fn add_checked(&mut self, delta: i32) -> (applied: bool)
        ensures
            applied == (i32::MIN <= old(self)@ + delta <= i32::MAX),
            applied ==> final(self)@ == old(self)@ + delta,
            !applied ==> final(self)@ == old(self)@,
    {
        match self.pending.checked_add(delta) {
            Some(sum) => {
                self.pending = sum;
                true
            },
            None => false,
        }
    }

    /// Atomically read the pending sum and reset it to zero: the returned
    /// value is exactly what was added (and not yet drained) so far.
    pub fn drain(&mut self) -> (r: i32)
        ensures
            r == old(self)@,
            final(self)@ == 0,
    {
        let value = self.pending;
        self.pending = 0;
        value
    }

    /// The pending sum, without consuming it.
    pub fn pending(&self) -> (r: i32)
        ensures
            r as int == self@,
    {
        self.pending
    }
}

/// Declares critical_section::Mutex, the mutual-exclusion cell that the
/// shared accumulator lives in; opaque here, accessed only through the
/// trusted wrappers below.
#[verifier::external_type_specification]
#[verifier::external_body]
#[verifier::reject_recursive_types(T)]
pub struct ExMutex<T>(critical_section::Mutex<T>);

/// Declares core::cell::RefCell, which gives the critical section's owner
/// mutable access to the accumulator; opaque here, accessed only through
/// the trusted wrappers below.
#[verifier::external_type_specification]
#[verifier::external_body]
#[verifier::reject_recursive_types(T)]
pub struct ExRefCell<T: ?Sized>(core::cell::RefCell<T>);

/// Relies on critical_section::Mutex::new and core::cell::RefCell::new: each
/// wraps the given value without reading or changing it.
#[verifier::external_body]
fn new_shared_cell(acc: Accumulator) -> (r: critical_section::Mutex<core::cell::RefCell<Accumulator>>) {
    critical_section::Mutex::new(core::cell::RefCell::new(acc))
}

/// An accumulator behind a critical section, so that concurrently scheduled
/// tasks (the button monitors and the render loop) may share one cell.
///
/// The cell's content changes under the callers' feet, so nothing can be
/// promised here about the value any one call sees; the serialized add/drain
/// semantics live in [`Accumulator`], which every access goes through, and
/// the laws [`lemma_accumulation`] and [`lemma_conservation`] describe every
/// serialized history of such accesses.
pub struct SharedAccumulator {
    cell: critical_section::Mutex<core::cell::RefCell<Accumulator>>,
}

impl SharedAccumulator {
    /// A fresh shared accumulator, holding an empty [`Accumulator`].
    pub fn new() -> SharedAccumulator {
        SharedAccumulator { cell: new_shared_cell(Accumulator::new()) }
    }

    /// Add one directional impulse from any task.
    ///
    /// Relies on critical_section::with: the closure runs in a critical
    /// section, excluding every concurrent `add` or `drain`, and
    /// Mutex::borrow_ref_mut yields the cell's accumulator for that section.
    /// The closure only calls the verified [`Accumulator::add_checked`].
    #[verifier::external_body]
    pub fn add(&self, delta: i32) -> bool {
        critical_section::with(|cs| self.cell.borrow_ref_mut(cs).add_checked(delta))
    }

    /// Atomically read and reset the pending sum, from the render loop.
    ///
    /// Relies on critical_section::with: the closure runs in a critical
    /// section, excluding every concurrent `add` or `drain`, and
    /// Mutex::borrow_ref_mut yields the cell's accumulator for that section.
    /// The closure only calls the verified [`Accumulator::drain`].
    #[verifier::external_body]
    pub fn drain(&self) -> i32 {
        critical_section::with(|cs| self.cell.borrow_ref_mut(cs).drain())
    }
}

/// One serialized access to the accumulator: the critical section admits one
/// at a time, so any concurrent history is some sequence of these.
pub enum AccOp {
    Add(int),
    Drain,
}

/// The pending sum after a sequence of serialized operations, starting from
/// an empty accumulator. Mirrors the contracts of [`Accumulator::add`]
/// (the delta joins the pending sum) and [`Accumulator::drain`] (the pending
/// sum returns to zero).
pub open spec fn pending_after(ops: Seq<AccOp>) -> int
    decreases ops.len(),
{
    if ops.len() == 0 {
        0
    } else {
        match ops.last() {
            AccOp::Add(d) => pending_after(ops.drop_last()) + d,
            AccOp::Drain => 0,
        }
    }
}

/// The sum of all deltas added over a sequence of operations.
pub open spec fn added_total(ops: Seq<AccOp>) -> int
    decreases ops.len(),
{
    if ops.len() == 0 {
        0
    } else {
        added_total(ops.drop_last()) + match ops.last() {
            AccOp::Add(d) => d,
            AccOp::Drain => 0,
        }
    }
}

/// The sum of the values returned by all drains over a sequence of
/// operations: by [`Accumulator::drain`]'s contract, each drain returns the
/// pending sum at the moment it runs.
pub open spec fn drained_total(ops: Seq<AccOp>) -> int
    decreases ops.len(),
{
    if ops.len() == 0 {
        0
    } else {
        drained_total(ops.drop_last()) + match ops.last() {
            AccOp::Add(_) => 0,
            AccOp::Drain => pending_after(ops.drop_last()),
        }
    }
}

/// The sum of a sequence of deltas.
pub open spec fn sum_of(ds: Seq<int>) -> int
    decreases ds.len(),
{
    if ds.len() == 0 {
        0
    } else {
        sum_of(ds.drop_last()) + ds.last()
    }
}

/// The history in which each of the given deltas is added once, in order.
pub open spec fn adds_of(ds: Seq<int>) -> Seq<AccOp> {
    ds.map_values(|d: int| AccOp::Add(d))
}

/// Accumulation: adding `d1, ..., dn` to an empty accumulator leaves exactly
/// `d1 + ... + dn` pending, so a single drain issued then returns that sum;
/// and after that drain nothing is pending, so an immediately following
/// drain returns zero.
pub proof fn lemma_accumulation(ds: Seq<int>)
    ensures
        pending_after(adds_of(ds)) == sum_of(ds),
        pending_after(adds_of(ds).push(AccOp::Drain)) == 0,
    decreases ds.len(),
{
    if ds.len() == 0 {
        assert(adds_of(ds).len() == 0);
    } else {
        lemma_accumulation(ds.drop_last());
        assert(adds_of(ds).drop_last() =~= adds_of(ds.drop_last()));
        assert(adds_of(ds).last() == AccOp::Add(ds.last()));
    }
    assert(adds_of(ds).push(AccOp::Drain).last() == AccOp::Drain);
}

/// Conservation: over any serialized interleaving of adds and drains, the
/// total that was added equals the total that the drains returned plus what
/// is still pending — no delta is lost, none is counted twice.
pub proof fn lemma_conservation(ops: Seq<AccOp>)
    ensures
        added_total(ops) == drained_total(ops) + pending_after(ops),
    decreases ops.len(),
{
    if ops.len() > 0 {
        lemma_conservation(ops.drop_last());
    }
}

/// After a history that ends in a drain nothing is pending, so the drains
/// together have returned every added delta exactly once, whichever tasks
/// issued the adds and in whatever order they were serialized.
pub proof fn lemma_conservation_after_drain(ops: Seq<AccOp>)
    requires
        ops.len() > 0,
        ops.last() is Drain,
    ensures
        added_total(ops) == drained_total(ops),
{
    lemma_conservation(ops);
}

} // verus!
