//! The lockstep multi-buffer iterator and its builder.
//!
//! The builder starts empty, accumulates option flags, and registers
//! buffers one at a time; each registration appends the buffer's access
//! mode to the type-level mode list, so a builder's type says exactly which
//! of its buffers may be written.  `build` is offered once the mode list
//! qualifies for the lockstep role (two or more buffers) and performs the
//! modelled construction: the runtime refuses buffers whose shapes
//! disagree, refuses zero-element buffers unless zero-size iteration was
//! enabled, and otherwise reports the common element count as the
//! iterator's remaining count.  A step reads one element per buffer from
//! under the current position, in registration order; writing targets the
//! current element of one registered buffer and is allowed exactly where
//! the mode list says read-write.

use core::marker::PhantomData;
use vstd::prelude::*;

use crate::buffer::NpyBuffer;
use crate::error::{ConstructionError, NpyError};
use crate::flags::{flag_bits, has_flag, NpyIterFlag, NPY_ITER_ZEROSIZE_OK};
use crate::mode::{AccessMode, MultiIterMode, MultiIterModeWithManyArrays, RO, RW};

verus! {

/// Whether every buffer of a registration list has the first one's shape.
pub open spec fn shapes_agree<T>(buffers: Seq<NpyBuffer<T>>) -> bool {
    forall|k: int| 0 <= k < buffers.len() ==> (#[trigger] buffers[k]).shape@ == buffers[0].shape@
}

/// Builder of a lockstep multi-buffer iterator.
pub struct NpyMultiIterBuilder<T, S: MultiIterMode> {
    /// The accumulated construction mask of option flags.
    pub flags: u32,
    /// The registered buffers, in registration order.
    pub buffers: Vec<NpyBuffer<T>>,
    /// The type-level mode list, one access mode per registered buffer.
    pub structure: PhantomData<S>,
}

impl<T> NpyMultiIterBuilder<T, ()> {
    /// Creates a new builder: no options, no buffers, the empty mode list.
    pub fn new() -> (builder: Self)
        ensures
            builder.flags == 0,
            builder.buffers@ =~= Seq::<NpyBuffer<T>>::empty(),
    {
        NpyMultiIterBuilder { flags: 0, buffers: Vec::new(), structure: PhantomData }
    }

    /// OR-s one option flag into the accumulated mask, returning the
    /// updated builder.
    #[must_use]
    pub fn set(self, flag: NpyIterFlag) -> (builder: Self)
        ensures
            builder.flags == self.flags | flag_bits(flag),
            builder.buffers == self.buffers,
    {
        let bits = flag.to_c_enum();
        NpyMultiIterBuilder { flags: self.flags | bits, buffers: self.buffers, structure: PhantomData }
    }
}

impl<T> Default for NpyMultiIterBuilder<T, ()> {
    /// Creates a new builder, as [`NpyMultiIterBuilder::new`] does.
    fn default() -> (builder: Self)
        ensures
            builder.flags == 0,
            builder.buffers@ =~= Seq::<NpyBuffer<T>>::empty(),
    {
        Self::new()
    }
}

impl<T, S: MultiIterMode> NpyMultiIterBuilder<T, S> {
    /// The builder's invariant: one registered buffer per mode of the
    /// mode list, each well formed.
    pub open spec fn wf(self) -> bool {
        &&& self.buffers@.len() == S::modes().len()
        &&& forall|k: int| 0 <= k < self.buffers@.len() ==> (#[trigger] self.buffers@[k]).wf()
    }

    /// Registers a buffer for reading only, appending a read-only mode to
    /// the mode list.
    pub fn add_readonly(self, buffer: NpyBuffer<T>) -> (builder: NpyMultiIterBuilder<T, RO<S>>)
        ensures
            builder.flags == self.flags,
            builder.buffers@ =~= self.buffers@.push(buffer),
            self.wf() && buffer.wf() ==> builder.wf(),
    {
        let mut buffers = self.buffers;
        buffers.push(buffer);
        NpyMultiIterBuilder { flags: self.flags, buffers, structure: PhantomData }
    }

    /// Registers a buffer for reading and writing, appending a read-write
    /// mode to the mode list.
    pub fn add_readwrite(self, buffer: NpyBuffer<T>) -> (builder: NpyMultiIterBuilder<T, RW<S>>)
        ensures
            builder.flags == self.flags,
            builder.buffers@ =~= self.buffers@.push(buffer),
            self.wf() && buffer.wf() ==> builder.wf(),
    {
        let mut buffers = self.buffers;
        buffers.push(buffer);
        NpyMultiIterBuilder { flags: self.flags, buffers, structure: PhantomData }
    }
}

impl<T, S: MultiIterModeWithManyArrays> NpyMultiIterBuilder<T, S> {
    /// Creates an iterator from this builder.
    ///
    /// Construction succeeds exactly when the registered buffers agree on
    /// their shape and have elements (or zero-size iteration was enabled);
    /// the fresh iterator's remaining count is the common element count.
    /// On refusal the error carries the runtime's reason and every
    /// registered buffer back, in registration order.  The construction
    /// policy is fixed — no ordering is promised and only safe casts are
    /// taken — which here is lockstep traversal in storage order over
    /// same-shaped buffers of one element type.
    pub fn build(self) -> (result: Result<NpyMultiIter<T, S>, ConstructionError<T>>)
        requires
            self.wf(),
        ensures
            match result {
                Ok(it) => {
                    &&& shapes_agree(self.buffers@)
                    &&& self.buffers@[0]@.len() > 0 || has_flag(
                        self.flags,
                        NpyIterFlag::ZerosizeOk,
                    )
                    &&& it.wf()
                    &&& it.buffers == self.buffers
                    &&& it.remaining == self.buffers@[0]@.len()
                },
                Err(err) => {
                    &&& err.buffers == self.buffers
                    &&& !shapes_agree(self.buffers@) || (self.buffers@[0]@.len() == 0
                        && !has_flag(self.flags, NpyIterFlag::ZerosizeOk))
                    &&& err.error == (if !shapes_agree(self.buffers@) {
                        NpyError::ShapeMismatch
                    } else {
                        NpyError::ZeroSize
                    })
                },
            },
    {
        proof {
            S::arity_at_least_two();
        }
        let op_flags = S::flags();
        assert(op_flags@.len() == self.buffers@.len());
        let n = self.buffers.len();
        let mut k: usize = 1;
        let mut agree = true;
        while k < n
            invariant
                1 <= k <= n,
                n == self.buffers@.len(),
                n >= 2,
                agree == (forall|j: int|
                    0 <= j < k ==> (#[trigger] self.buffers@[j]).shape@
                        == self.buffers@[0].shape@),
            decreases n - k,
        {
            if !self.buffers[0].same_shape(&self.buffers[k]) {
                agree = false;
            }
            k = k + 1;
        }
        if !agree {
            return Err(ConstructionError { error: NpyError::ShapeMismatch, buffers: self.buffers });
        }
        assert(shapes_agree(self.buffers@));
        let total = self.buffers[0].len();
        if total == 0 && self.flags & NPY_ITER_ZEROSIZE_OK == 0 {
            Err(ConstructionError { error: NpyError::ZeroSize, buffers: self.buffers })
        } else {
            proof {
                assert forall|j: int| 0 <= j < self.buffers@.len() implies (
                #[trigger] self.buffers@[j])@.len() == self.buffers@[0]@.len() by {
                    assert(self.buffers@[j].shape@ == self.buffers@[0].shape@);
                    assert(self.buffers@[j].wf());
                    assert(self.buffers@[0].wf());
                }
            }
            Ok(NpyMultiIter { buffers: self.buffers, remaining: total, structure: PhantomData })
        }
    }
}

/// A lockstep iterator over two or more buffers, constructed by
/// [`NpyMultiIterBuilder`].
///
/// The remaining count is cached at construction and decremented on each
/// step, never re-queried; the current position of the underlying stepping
/// protocol is recovered from it, and every registered buffer stands at
/// that same position.
pub struct NpyMultiIter<T, S: MultiIterModeWithManyArrays> {
    /// The registered buffers, in registration order.
    pub buffers: Vec<NpyBuffer<T>>,
    /// The cached count of element tuples not yet stepped over.
    pub remaining: usize,
    /// The type-level mode list, one access mode per registered buffer.
    pub structure: PhantomData<S>,
}

impl<T, S: MultiIterModeWithManyArrays> NpyMultiIter<T, S> {
    /// The common element count of the registered buffers.
    pub open spec fn total(self) -> nat {
        self.buffers@[0]@.len()
    }

    /// The iterator's invariant: one well-formed buffer per mode of the
    /// mode list (so at least two), all of the same shape and element
    /// count, and a remaining count that never exceeds that element count.
    pub open spec fn wf(self) -> bool {
        &&& self.buffers@.len() == S::modes().len()
        &&& self.buffers@.len() >= 2
        &&& forall|k: int| 0 <= k < self.buffers@.len() ==> (#[trigger] self.buffers@[k]).wf()
        &&& shapes_agree(self.buffers@)
        &&& forall|k: int| 0 <= k < self.buffers@.len() ==> (#[trigger] self.buffers@[k])@.len()
            == self.total()
        &&& self.remaining <= self.total()
    }

    /// The position of the element tuple the next step yields.
    pub open spec fn cursor(self) -> int {
        self.total() - self.remaining
    }

    /// The element tuple under the current position: one element per
    /// registered buffer, in registration order.
    pub open spec fn current_row(self) -> Seq<T> {
        Seq::new(self.buffers@.len(), |k: int| self.buffers@[k]@[self.cursor()])
    }

    /// What one step does: the element tuple it yields, if any, and the
    /// state it leaves behind.  An exhausted iterator yields nothing and
    /// stays as it is.
    pub open spec fn spec_step(self) -> (Option<Seq<T>>, Self) {
        if self.remaining == 0 {
            (None, self)
        } else {
            (
                Some(self.current_row()),
                NpyMultiIter {
                    buffers: self.buffers,
                    remaining: (self.remaining - 1) as usize,
                    structure: self.structure,
                },
            )
        }
    }

    /// The exact count of element tuples not yet stepped over.
    pub fn len(&self) -> (n: usize)
        ensures
            n == self.remaining,
    {
        self.remaining
    }

    /// The exact size bounds of the iteration left: the remaining count on
    /// both sides.
    pub fn size_hint(&self) -> (bounds: (usize, Option<usize>))
        ensures
            bounds.0 == self.remaining,
            bounds.1 == Some(self.remaining),
    {
        (self.remaining, Some(self.remaining))
    }

    /// Ends the iteration and hands the buffers back, in registration
    /// order.
    pub fn into_buffers(self) -> (buffers: Vec<NpyBuffer<T>>)
        ensures
            buffers == self.buffers,
    {
        self.buffers
    }
}

impl<T: Copy, S: MultiIterModeWithManyArrays> NpyMultiIter<T, S> {
    /// The element tuple under the current position, in registration
    /// order, or nothing once the iterator is exhausted.
    pub fn peek(&self) -> (current: Option<Vec<T>>)
        requires
            self.wf(),
        ensures
            self.remaining == 0 ==> current is None,
            self.remaining > 0 ==> (current matches Some(row) && row@ == self.current_row()),
    {
        if self.remaining == 0 {
            return None;
        }
        let idx = self.buffers[0].len() - self.remaining;
        let n = self.buffers.len();
        let mut row: Vec<T> = Vec::new();
        let mut k: usize = 0;
        while k < n
            invariant
                0 <= k <= n,
                self.wf(),
                self.remaining > 0,
                n == self.buffers@.len(),
                idx == self.cursor(),
                row@ =~= self.current_row().take(k as int),
            decreases n - k,
        {
            row.push(self.buffers[k].get(idx));
            proof {
                assert(row@ =~= self.current_row().take(k + 1));
            }
            k = k + 1;
        }
        proof {
            assert(row@ =~= self.current_row());
        }
        Some(row)
    }

    /// One step: yields the element tuple under the current position, in
    /// registration order, and advances past it.  Once the remaining count
    /// is zero the step yields nothing and leaves the iterator unchanged,
    /// so every later step yields nothing as well.
    pub fn next(&mut self) -> (step: Option<Vec<T>>)
        requires
            old(self).wf(),
        ensures
            final(self).wf(),
            final(self).buffers == old(self).buffers,
            *final(self) == old(self).spec_step().1,
            step is Some <==> old(self).spec_step().0 is Some,
            step matches Some(row) ==> Some(row@) == old(self).spec_step().0,
            old(self).remaining == 0 ==> step is None && *final(self) == *old(self),
            old(self).remaining > 0 ==> final(self).remaining == old(self).remaining - 1 && (
            step matches Some(row) && row@ == old(self).current_row()),
    {
        match self.peek() {
            Some(row) => {
                self.remaining = self.remaining - 1;
                Some(row)
            },
            None => None,
        }
    }

    /// Steps the iterator to exhaustion and collects the yielded element
    /// tuples: one per position not yet stepped over, in step order, each
    /// in registration order.
    pub fn collect_rows(self) -> (rows: Vec<Vec<T>>)
        requires
            self.wf(),
        ensures
            rows@.len() == self.remaining,
            forall|i: int| 0 <= i < rows@.len() ==> (#[trigger] rows@[i])@ == Seq::new(
                self.buffers@.len(),
                |k: int| self.buffers@[k]@[self.cursor() + i],
            ),
    {
        let ghost orig = self;
        let mut it = self;
        let mut rows: Vec<Vec<T>> = Vec::new();
        while it.remaining > 0
            invariant
                orig.wf(),
                it.wf(),
                it.buffers == orig.buffers,
                it.remaining <= orig.remaining,
                rows@.len() == orig.remaining - it.remaining,
                forall|i: int| 0 <= i < rows@.len() ==> (#[trigger] rows@[i])@ == Seq::new(
                    orig.buffers@.len(),
                    |k: int| orig.buffers@[k]@[orig.cursor() + i],
                ),
            decreases it.remaining,
        {
            match it.next() {
                Some(row) => {
                    proof {
                        assert(row@ =~= Seq::new(
                            orig.buffers@.len(),
                            |k: int| orig.buffers@[k]@[orig.cursor() + rows@.len()],
                        ));
                    }
                    rows.push(row);
                },
                None => {
                    proof {
                        assert(false);
                    }
                },
            }
        }
        rows
    }

    /// Writes a value to the current element of the buffer at one
    /// registration position.  The mode list must say read-write there;
    /// the remaining count, the other buffers and every other element stay
    /// as they were.
    pub fn write(&mut self, k: usize, value: T)
        requires
            old(self).wf(),
            old(self).remaining > 0,
            k < old(self).buffers@.len(),
            S::modes()[k as int] == AccessMode::ReadWrite,
        ensures
            final(self).wf(),
            final(self).remaining == old(self).remaining,
            final(self).buffers@.len() == old(self).buffers@.len(),
            final(self).buffers@[k as int].shape@ == old(self).buffers@[k as int].shape@,
            final(self).buffers@[k as int]@ == old(self).buffers@[k as int]@.update(
                old(self).cursor(),
                value,
            ),
            forall|j: int| 0 <= j < old(self).buffers@.len() && j != k ==> final(self).buffers@[j]
                == old(self).buffers@[j],
    {
        let idx = self.buffers[0].len() - self.remaining;
        self.buffers[k].data[idx] = value;
    }
}

} // verus!
