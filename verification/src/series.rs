//! A shared, mutably-accessible handle to one rotating buffer (or a richer
//! renderable value containing one), exposed identically to a periodic
//! producer and an on-demand renderer.
//!
//! All clones of a handle refer to the same underlying value.  Access goes
//! through scoped sections: [`SharedSeries::with_mut`] for one exclusive
//! mutator, [`SharedSeries::with_ref`] for shared readers.  Opening a
//! section while another is active in a conflicting mode on the same value
//! is reported immediately as [`AccessError::ReentrantAccessViolation`],
//! never silently serialized or ignored.

use crate::rotate::RotateVec;
use core::cell::RefCell;
use std::rc::Rc;
use vstd::prelude::*;

verus! {

/// A conflicting access section was already open on the same underlying
/// value when a new one was requested: the intended usage is strictly
/// non-reentrant, so this is surfaced loudly instead of corrupting state
/// or deadlocking.
#[derive(Clone, Copy, Debug, PartialEq, Eq, Structural)]
pub enum AccessError {
    ReentrantAccessViolation,
}

/// Declares `core::cell::RefCell` to the verifier.  A value of it is
/// opaque here: its contents are reached only through the trusted
/// accessors below, which state what holds of every outcome.
#[verifier::external_type_specification]
#[verifier::external_body]
#[verifier::reject_recursive_types(T)]
pub struct ExRefCell<T: ?Sized>(RefCell<T>);

/// Relies on `core::cell::RefCell::new`: it builds the cell that a
/// [`SharedSeries`] guards, holding the given value.  Nothing is stated of
/// the result: the cell's contents stay opaque, and every later access to
/// them goes through `cell_update` or `cell_read`.
#[verifier::external_body]
fn cell_new<T>(value: T) -> RefCell<Option<T>> {
    RefCell::new(Some(value))
}

/// Relies on `core::cell::RefCell::try_borrow_mut`: it grants exclusive
/// access to the cell's contents exactly when no other borrow of the cell
/// is active, and fails without touching the contents otherwise.  On
/// success the contents are replaced by `f` applied to them, as one
/// uninterrupted section; on failure `f` is never called.  The cell holds
/// `Some` between sections; `None` (possible only if an earlier caller's
/// callback unwound mid-section) is reported as the same loud failure.
#[verifier::external_body]
fn cell_update<T, F: FnOnce(T) -> T>(cell: &RefCell<Option<T>>, f: F) -> (r: Result<
    (),
    AccessError,
>)
    requires
        forall|t: T| call_requires(f, (t,)),
    ensures
        r is Ok ==> exists|t: T, u: T| call_ensures(f, (t,), u),
{
    match cell.try_borrow_mut() {
        Ok(mut guard) => match guard.take() {
            Some(value) => {
                *guard = Some(f(value));
                Ok(())
            },
            None => Err(AccessError::ReentrantAccessViolation),
        },
        Err(_) => Err(AccessError::ReentrantAccessViolation),
    }
}

/// Relies on `core::cell::RefCell::try_borrow`: it grants shared access to
/// the cell's contents exactly when no exclusive borrow is active, and
/// fails otherwise.  On success the result is `f` applied to the contents,
/// which are left untouched; on failure `f` is never called.
#[verifier::external_body]
fn cell_read<T, R, F: FnOnce(&T) -> R>(cell: &RefCell<Option<T>>, f: F) -> (r: Result<
    R,
    AccessError,
>)
    requires
        forall|t: &T| call_requires(f, (t,)),
    ensures
        r matches Ok(out) ==> exists|t: &T| call_ensures(f, (t,), out),
{
    match cell.try_borrow() {
        Ok(guard) => match guard.as_ref() {
            Some(value) => Ok(f(value)),
            None => Err(AccessError::ReentrantAccessViolation),
        },
        Err(_) => Err(AccessError::ReentrantAccessViolation),
    }
}

/// Relies on `std::rc::Rc::clone`: the result is a second handle to the
/// very same allocation, so both handles hold the same cell.
#[verifier::external_body]
fn rc_clone<T>(rc: &Rc<T>) -> (r: Rc<T>)
    ensures
        r == *rc,
{
    Rc::clone(rc)
}

/// A reference-counted, interior-mutable handle to one value shared
/// between a producer and a renderer.  The value lives as long as the
/// last surviving handle.
#[verifier::reject_recursive_types(T)]
pub struct SharedSeries<T> {
    cell: Rc<RefCell<Option<T>>>,
}

impl<T> SharedSeries<T> {
    /// Wraps `value` behind a shared, cheaply-cloneable handle.
    pub fn wrap(value: T) -> SharedSeries<T> {
        SharedSeries { cell: Rc::new(cell_new(value)) }
    }

    /// A second handle to the same underlying value.
    pub fn clone_handle(&self) -> (r: SharedSeries<T>)
        ensures
            r == *self,
    {
        SharedSeries { cell: rc_clone(&self.cell) }
    }

    /// Exclusive access section: acquires sole access, replaces the shared
    /// value by `f` applied to it, and releases before returning.  `f` must
    /// accept any value of `T`, since the contents are not visible outside
    /// a section.  If a conflicting section is already open on the same
    /// value, `f` is not called and the violation is reported; on success,
    /// the new shared value is related to the old one by `f`'s contract.
    pub fn with_mut<F: FnOnce(T) -> T>(&self, f: F) -> (r: Result<(), AccessError>)
        requires
            forall|t: T| call_requires(f, (t,)),
        ensures
            r is Ok ==> exists|t: T, u: T| call_ensures(f, (t,), u),
    {
        cell_update(&self.cell, f)
    }

    /// Shared access section: acquires read access, applies `f` to the
    /// shared value, and releases before returning.  The result it hands
    /// back satisfies `f`'s contract for the one consistent value that was
    /// read; if an exclusive section is open, `f` is not called and the
    /// violation is reported.
    pub fn with_ref<R, F: FnOnce(&T) -> R>(&self, f: F) -> (r: Result<R, AccessError>)
        requires
            forall|t: &T| call_requires(f, (t,)),
        ensures
            r matches Ok(out) ==> exists|t: &T| call_ensures(f, (t,), out),
    {
        cell_read(&self.cell, f)
    }
}

/// The producer's one-section update, as a window transition: the oldest
/// sample dropped, every survivor's logical index one lower, and `sample`
/// installed as the newest element.
pub open spec fn recorded<V>(before: Seq<V>, sample: V) -> Seq<V> {
    before.subrange(1, before.len() as int).push(sample)
}

/// The body of one producer tick: advance the window, then install
/// `sample` at the logical last position, which the advance freed.
pub fn record_tick<V>(buf: RotateVec<V>, sample: V) -> (out: RotateVec<V>)
    ensures
        out@ == recorded(buf@, sample),
        out.capacity() == buf.capacity(),
{
    let mut b = buf;
    proof {
        b.lemma_view_len();
    }
    b.move_start();
    let n = b.len();
    let last = n - 1;
    if let Some(slot) = b.get_mut(last) {
        *slot = sample;
    }
    proof {
        assert(b@ =~= recorded(buf@, sample));
    }
    b
}

impl<V> SharedSeries<RotateVec<V>> {
    /// One producer tick, performed as a single exclusive section: the
    /// window is advanced and `sample` installed as the newest element in
    /// one step, so a renderer sees either the whole window from before
    /// the tick or the whole window from after it, never a rotated window
    /// with the new sample missing.
    pub fn push_sample(&self, sample: V) -> (r: Result<(), AccessError>)
        ensures
            r is Ok ==> exists|before: RotateVec<V>, after: RotateVec<V>|
                after@ == recorded(before@, sample) && after.capacity() == before.capacity(),
    {
        let f = move |buf: RotateVec<V>| -> (out: RotateVec<V>)
            ensures
                out@ == recorded(buf@, sample),
                out.capacity() == buf.capacity(),
            { record_tick(buf, sample) };
        let r = self.with_mut(f);
        proof {
            if r is Ok {
                let (t, u) = choose|t: RotateVec<V>, u: RotateVec<V>| call_ensures(f, (t,), u);
                assert(u@ == recorded(t@, sample) && u.capacity() == t.capacity());
            }
        }
        r
    }
}

impl<V: Copy> SharedSeries<RotateVec<V>> {
    /// One renderer read: the whole logical window, oldest first, copied
    /// out under one shared section, so it is one consistent pre-tick or
    /// post-tick state.
    pub fn snapshot(&self) -> (r: Result<Vec<V>, AccessError>)
        ensures
            r matches Ok(w) ==> exists|b: RotateVec<V>| w@ == b@,
    {
        let f = |buf: &RotateVec<V>| -> (out: Vec<V>)
            ensures
                out@ == buf@,
            { buf.to_vec() };
        let r = self.with_ref(f);
        proof {
            if r is Ok {
                let w = r->Ok_0;
                let t = choose|t: &RotateVec<V>| call_ensures(f, (t,), w);
                assert(w@ == t@);
            }
        }
        r
    }
}

} // verus!
