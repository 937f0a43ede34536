//! A fixed-capacity, always-full ring buffer over a contiguous store.
//!
//! The buffer holds exactly `capacity` samples for its whole lifetime.  A
//! logical index in `[0, capacity)` is mapped to a physical slot by adding a
//! rotating offset; advancing the window only moves that offset, so admitting
//! a new sample never copies or shifts the stored elements.
//!
//! Convention: logical index `0` is the oldest visible sample and
//! `capacity - 1` the newest.  [`RotateVec::move_start`] drops the oldest
//! sample out of the window and makes its slot the new logical last position,
//! where the caller installs the newest sample.

use vstd::prelude::*;

verus! {

/// The physical slot backing logical index `i` of a buffer with the given
/// rotation `offset` and `cap`acity.
pub open spec fn slot_of(offset: nat, cap: nat, i: nat) -> nat {
    if offset + i < cap {
        offset + i
    } else {
        (offset + i - cap) as nat
    }
}

/// The rotation offset after `k` single advances from `offset`, each of which
/// steps the offset forward by one and wraps at `cap`.
pub open spec fn offset_after(offset: nat, cap: nat, k: nat) -> nat
    decreases k,
{
    if k == 0 {
        offset
    } else {
        (offset_after(offset, cap, (k - 1) as nat) + 1) % cap
    }
}

/// After `k` single advances the rotation offset is the modular sum
/// `(offset + k) % cap`.
pub proof fn lemma_offset_after_is_mod(offset: nat, cap: nat, k: nat)
    requires
        0 < cap,
        offset < cap,
    ensures
        offset_after(offset, cap, k) == (offset + k) % cap,
    decreases k,
{
    if k == 0 {
        vstd::arithmetic::div_mod::lemma_small_mod(offset, cap);
    } else {
        lemma_offset_after_is_mod(offset, cap, (k - 1) as nat);
        vstd::arithmetic::div_mod::lemma_add_mod_noop_right(
            1,
            offset as int + (k - 1),
            cap as int,
        );
    }
}

/// Rotation is cyclic with period `capacity`: advancing exactly `cap`
/// times returns the rotation offset to its original value.
pub proof fn lemma_rotation_period(offset: nat, cap: nat)
    requires
        0 < cap,
        offset < cap,
    ensures
        offset_after(offset, cap, cap) == offset,
{
    lemma_offset_after_is_mod(offset, cap, cap);
    vstd::arithmetic::div_mod::lemma_mod_add_multiples_vanish(offset as int, cap as int);
    vstd::arithmetic::div_mod::lemma_small_mod(offset, cap);
}

/// Rotation is a pure relabeling, never a data copy: after any number `k`
/// of advances, the logical index `capacity - 1 - k % capacity` addresses
/// the same physical slot that logical index `capacity - 1` addressed
/// before them.  (That advancing also leaves the store untouched is stated
/// by `move_start` itself.)
pub proof fn lemma_rotation_relabels(offset: nat, cap: nat, k: nat)
    requires
        0 < cap,
        offset < cap,
    ensures
        offset_after(offset, cap, k) < cap,
        slot_of(offset_after(offset, cap, k), cap, (cap - 1 - k % cap) as nat) == slot_of(
            offset,
            cap,
            (cap - 1) as nat,
        ),
    decreases k,
{
    vstd::arithmetic::div_mod::lemma_mod_bound(k as int, cap as int);
    if k == 0 {
        vstd::arithmetic::div_mod::lemma_small_mod(0, cap);
    } else {
        lemma_rotation_relabels(offset, cap, (k - 1) as nat);
        let o_prev = offset_after(offset, cap, (k - 1) as nat);
        let m_prev = ((k - 1) as nat) % cap;
        vstd::arithmetic::div_mod::lemma_mod_bound((k - 1) as int, cap as int);
        if o_prev + 1 < cap {
            vstd::arithmetic::div_mod::lemma_small_mod((o_prev + 1) as nat, cap);
        } else {
            vstd::arithmetic::div_mod::lemma_mod_self_0(cap as int);
        }
        vstd::arithmetic::div_mod::lemma_add_mod_noop_right(1, (k - 1) as int, cap as int);
        if m_prev + 1 < cap {
            vstd::arithmetic::div_mod::lemma_small_mod((m_prev + 1) as nat, cap);
        } else {
            vstd::arithmetic::div_mod::lemma_mod_self_0(cap as int);
        }
    }
}

/// A fixed-capacity rotating window: a contiguous store of exactly
/// `capacity` initialized elements plus one rotating start offset.
#[derive(Debug)]
pub struct RotateVec<T> {
    data: Vec<T>,
    start: usize,
}

/// Rejected construction: a zero-capacity buffer is never a valid state,
/// because the logical-to-physical index arithmetic needs `capacity > 0`.
#[derive(Clone, Copy, Debug, PartialEq, Eq, Structural)]
pub struct ConstructionError;

impl<T> View for RotateVec<T> {
    type V = Seq<T>;

    /// The logically ordered window: element `i` of the view is the element
    /// stored in physical slot `slot_of(offset, capacity, i)`.
    closed spec fn view(&self) -> Seq<T> {
        Seq::new(
            self.data@.len(),
            |i: int| self.data@[slot_of(self.start as nat, self.data@.len(), i as nat) as int],
        )
    }
}

impl<T> RotateVec<T> {
    /// Capacity never changes after construction and always exceeds zero.
    #[verifier::type_invariant]
    closed spec fn wf(self) -> bool {
        self.start < self.data@.len()
    }

    /// The fixed number of slots.
    pub closed spec fn capacity(&self) -> nat {
        self.data@.len()
    }

    /// The rotation offset: the physical slot of logical index 0.
    pub closed spec fn offset(&self) -> nat {
        self.start as nat
    }

    /// The physical store, in slot order (not in logical order).
    pub closed spec fn store(&self) -> Seq<T> {
        self.data@
    }

    /// The view has one element per slot.
    pub proof fn lemma_view_len(&self)
        ensures
            self@.len() == self.capacity(),
            self.store().len() == self.capacity(),
    {
    }

    /// Logical index `i` reads physical slot `slot_of(offset, capacity, i)`:
    /// the view is a pure relabeling of the store.
    pub proof fn lemma_view_slot(&self, i: int)
        requires
            0 <= i < self.capacity(),
            self.offset() < self.capacity(),
        ensures
            slot_of(self.offset(), self.capacity(), i as nat) < self.capacity(),
            self@[i] == self.store()[slot_of(self.offset(), self.capacity(), i as nat) as int],
    {
    }

    /// Builds a buffer over the given initial store, with the window not yet
    /// rotated.  The store must hold at least one element.
    pub fn new(d: Vec<T>) -> (s: RotateVec<T>)
        requires
            d@.len() > 0,
        ensures
            s@ == d@,
            s.store() == d@,
            s.offset() == 0,
            s.capacity() == d@.len(),
    {
        let s = RotateVec { data: d, start: 0 };
        proof {
            assert(s@ =~= s.data@);
        }
        s
    }

    /// Builds a buffer like [`RotateVec::new`], but reports a zero-capacity
    /// initial store as a [`ConstructionError`] instead of excluding it.
    pub fn try_new(d: Vec<T>) -> (r: Result<RotateVec<T>, ConstructionError>)
        ensures
            d@.len() > 0 <==> r is Ok,
            r matches Ok(s) ==> s@ == d@ && s.store() == d@ && s.offset() == 0
                && s.capacity() == d@.len(),
    {
        if d.len() > 0 {
            Ok(RotateVec::new(d))
        } else {
            Err(ConstructionError)
        }
    }

    /// The fixed capacity.  The rotation offset always stays inside the
    /// store, so a buffer one can call this on holds at least one element.
    pub fn len(&self) -> (n: usize)
        ensures
            n == self.capacity(),
            self.offset() < n,
    {
        proof {
            use_type_invariant(self);
        }
        self.data.len()
    }

    /// True only for a zero-capacity buffer, which construction excludes;
    /// present for interface completeness.
    pub fn is_empty(&self) -> (e: bool)
        ensures
            e == (self.capacity() == 0),
    {
        self.data.is_empty()
    }

    /// The physical slot of logical index `index`.  The wraparound is
    /// computed by comparison and subtraction, so the sum `start + index`
    /// is never formed where it could exceed the index type.
    fn get_real_pos(&self, index: usize) -> (pos: usize)
        requires
            index < self.capacity(),
        ensures
            pos == slot_of(self.offset(), self.capacity(), index as nat),
            pos < self.capacity(),
    {
        proof {
            use_type_invariant(self);
        }
        let len = self.data.len();
        if index >= len - self.start {
            index - (len - self.start)
        } else {
            self.start + index
        }
    }

    /// Advances the window by one position: the oldest sample (logical
    /// index 0) falls out, every other sample's logical index drops by one,
    /// and the freed slot becomes logical index `capacity - 1`, ready for
    /// the newest sample.  Only the offset moves; no element is read,
    /// written or copied.
    pub fn move_start(&mut self)
        ensures
            final(self).capacity() == old(self).capacity(),
            final(self).store() == old(self).store(),
            final(self).offset() == (old(self).offset() + 1) % old(self).capacity(),
            final(self)@ == old(self)@.subrange(1, old(self).capacity() as int)
                .push(old(self)@[0]),
    {
        proof {
            use_type_invariant(&*self);
        }
        let len = self.data.len();
        if self.start + 1 < len {
            self.start = self.start + 1;
            proof {
                vstd::arithmetic::div_mod::lemma_small_mod(
                    (old(self).offset() + 1) as nat,
                    old(self).capacity(),
                );
            }
        } else {
            self.start = 0;
            proof {
                vstd::arithmetic::div_mod::lemma_mod_self_0(old(self).capacity() as int);
            }
        }
        proof {
            assert(self@ =~= old(self)@.subrange(1, old(self).capacity() as int)
                .push(old(self)@[0]));
        }
    }

    /// Read-only positional access to the element at logical `index`;
    /// the index must lie inside the window, mirroring array-indexing
    /// semantics.
    pub fn index(&self, index: usize) -> (r: &T)
        requires
            index < self.capacity(),
        ensures
            *r == self@[index as int],
    {
        let pos = self.get_real_pos(index);
        &self.data[pos]
    }

    /// A mutable reference to the element at logical `index`, or nothing
    /// when `index` lies outside the window.  Writing through the reference
    /// overwrites exactly that logical position; capacity and rotation are
    /// untouched.
    pub fn get_mut(&mut self, index: usize) -> (r: Option<&mut T>)
        ensures
            index < old(self).capacity() ==> (r.is_some()
                && *r.unwrap() == old(self)@[index as int]
                && final(self)@ =~= old(self)@.update(index as int, *final(r.unwrap()))
                && final(self).capacity() == old(self).capacity()
                && final(self).offset() == old(self).offset()),
            index >= old(self).capacity() ==> r.is_none() && *final(self) == *old(self),
    {
        proof {
            use_type_invariant(&*self);
        }
        if index < self.data.len() {
            let pos = self.get_real_pos(index);
            Some(&mut self.data[pos])
        } else {
            None
        }
    }
}

impl<T: Copy> RotateVec<T> {
    /// The logical window, oldest first, copied into a fresh vector: the
    /// renderer's read of logical indices `0..capacity` in order.
    pub fn to_vec(&self) -> (v: Vec<T>)
        ensures
            v@ == self@,
    {
        let n = self.len();
        let mut v: Vec<T> = Vec::new();
        let mut i: usize = 0;
        while i < n
            invariant
                n == self.capacity(),
                i <= n,
                v@ =~= self@.subrange(0, i as int),
            decreases n - i,
        {
            let x = *self.index(i);
            v.push(x);
            i = i + 1;
        }
        proof {
            assert(v@ =~= self@);
        }
        v
    }
}

} // verus!
