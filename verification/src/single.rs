//! The single-buffer iterator and its builder.
//!
//! The builder fixes the access mode at the type level (`readonly` or
//! `readwrite`), accumulates option flags, and `build` performs the
//! modelled construction: the runtime refuses a zero-element buffer unless
//! zero-size iteration was enabled, and otherwise reports the buffer's
//! element count as the iterator's remaining count.  The iterator then
//! steps through the elements in storage order: each step yields the
//! element under the current position and decrements the remaining count,
//! and once the count reaches zero every step yields nothing and changes
//! nothing.  Writing is offered only by the read-write instantiation and
//! targets exactly the element under the current position.

use core::marker::PhantomData;
use vstd::prelude::*;

use crate::buffer::NpyBuffer;
use crate::error::{ConstructionError, NpyError};
use crate::flags::{
    flag_bits, has_flag, NpyIterFlag, NPY_ITER_READONLY, NPY_ITER_READWRITE, NPY_ITER_ZEROSIZE_OK,
};
use crate::mode::{IterMode, ReadWrite, Readonly};

verus! {

/// Builder of a single-buffer iterator.
pub struct NpySingleIterBuilder<T, I: IterMode> {
    /// The accumulated construction mask: the access-mode flag together
    /// with the option flags set so far.
    pub flags: u32,
    /// The registered buffer.
    pub buffer: NpyBuffer<T>,
    /// The type-level access mode.
    pub mode: PhantomData<I>,
}

impl<T> NpySingleIterBuilder<T, Readonly> {
    /// Makes a new builder for a read-only iterator over the buffer.
    pub fn readonly(buffer: NpyBuffer<T>) -> (builder: Self)
        ensures
            builder.flags == NPY_ITER_READONLY,
            builder.buffer == buffer,
    {
        NpySingleIterBuilder { flags: NPY_ITER_READONLY, buffer, mode: PhantomData }
    }
}

impl<T> NpySingleIterBuilder<T, ReadWrite> {
    /// Makes a new builder for a writable iterator over the buffer.
    pub fn readwrite(buffer: NpyBuffer<T>) -> (builder: Self)
        ensures
            builder.flags == NPY_ITER_READWRITE,
            builder.buffer == buffer,
    {
        NpySingleIterBuilder { flags: NPY_ITER_READWRITE, buffer, mode: PhantomData }
    }
}

impl<T, I: IterMode> NpySingleIterBuilder<T, I> {
    /// OR-s one option flag into the accumulated mask, returning the
    /// updated builder.
    #[must_use]
    pub fn set(self, flag: NpyIterFlag) -> (builder: Self)
        ensures
            builder.flags == self.flags | flag_bits(flag),
            builder.buffer == self.buffer,
    {
        let bits = flag.to_c_enum();
        NpySingleIterBuilder { flags: self.flags | bits, buffer: self.buffer, mode: PhantomData }
    }

    /// Creates an iterator from this builder.
    ///
    /// Construction succeeds exactly when the buffer has elements or
    /// zero-size iteration was enabled; the fresh iterator's remaining
    /// count is the buffer's element count.  On refusal the error carries
    /// the runtime's reason and the registered buffer back.  The
    /// construction policy is fixed — no ordering is promised and only safe
    /// casts are taken — which here is traversal in storage order over a
    /// buffer of one element type.
    pub fn build(self) -> (result: Result<NpySingleIter<T, I>, ConstructionError<T>>)
        requires
            self.buffer.wf(),
        ensures
            match result {
                Ok(it) => {
                    &&& self.buffer@.len() > 0 || has_flag(self.flags, NpyIterFlag::ZerosizeOk)
                    &&& it.wf()
                    &&& it.buffer == self.buffer
                    &&& it.remaining == self.buffer@.len()
                },
                Err(err) => {
                    &&& self.buffer@.len() == 0
                    &&& !has_flag(self.flags, NpyIterFlag::ZerosizeOk)
                    &&& err.error == NpyError::ZeroSize
                    &&& err.buffers@ =~= seq![self.buffer]
                },
            },
    {
        if self.buffer.len() == 0 && self.flags & NPY_ITER_ZEROSIZE_OK == 0 {
            let mut buffers: Vec<NpyBuffer<T>> = Vec::new();
            buffers.push(self.buffer);
            Err(ConstructionError { error: NpyError::ZeroSize, buffers })
        } else {
            let remaining = self.buffer.len();
            Ok(NpySingleIter { buffer: self.buffer, remaining, mode: PhantomData })
        }
    }
}

/// An iterator over a single buffer, constructed by
/// [`NpySingleIterBuilder`].
///
/// The remaining count is cached at construction and decremented on each
/// step, never re-queried; the current position of the underlying stepping
/// protocol is recovered from it.
pub struct NpySingleIter<T, I: IterMode> {
    /// The buffer being stepped over.
    pub buffer: NpyBuffer<T>,
    /// The cached count of elements not yet stepped over.
    pub remaining: usize,
    /// The type-level access mode.
    pub mode: PhantomData<I>,
}

impl<T, I: IterMode> NpySingleIter<T, I> {
    /// The iterator's invariant: a well-formed buffer, and a remaining
    /// count that never exceeds the element count.
    pub open spec fn wf(self) -> bool {
        &&& self.buffer.wf()
        &&& self.remaining <= self.buffer@.len()
    }

    /// The buffer's element count.
    pub open spec fn total(self) -> nat {
        self.buffer@.len()
    }

    /// The position of the element the next step yields.
    pub open spec fn cursor(self) -> int {
        self.total() - self.remaining
    }

    /// The elements not yet stepped over, in step order.
    pub open spec fn remaining_elems(self) -> Seq<T> {
        self.buffer@.skip(self.cursor())
    }

    /// What one step does: the element it yields, if any, and the state it
    /// leaves behind.  An exhausted iterator yields nothing and stays as
    /// it is.
    pub open spec fn spec_step(self) -> (Option<T>, Self) {
        if self.remaining == 0 {
            (None, self)
        } else {
            (
                Some(self.buffer@[self.cursor()]),
                NpySingleIter {
                    buffer: self.buffer,
                    remaining: (self.remaining - 1) as usize,
                    mode: self.mode,
                },
            )
        }
    }

    /// The exact count of elements not yet stepped over.
    pub fn len(&self) -> (n: usize)
        ensures
            n == self.remaining,
    {
        self.remaining
    }

    /// The exact size bounds of the iteration left: the remaining count on
    /// both sides.
    pub fn size_hint(&self) -> (bounds: (usize, Option<usize>))
        ensures
            bounds.0 == self.remaining,
            bounds.1 == Some(self.remaining),
    {
        (self.remaining, Some(self.remaining))
    }

    /// Ends the iteration and hands the buffer back.
    pub fn into_buffer(self) -> (buffer: NpyBuffer<T>)
        ensures
            buffer == self.buffer,
    {
        self.buffer
    }
}

impl<T: Copy, I: IterMode> NpySingleIter<T, I> {
    /// The element under the current position, or nothing once the
    /// iterator is exhausted.
    pub fn peek(&self) -> (current: Option<T>)
        requires
            self.wf(),
        ensures
            self.remaining == 0 ==> current is None,
            self.remaining > 0 ==> current == Some(self.buffer@[self.cursor()]),
    {
        if self.remaining == 0 {
            None
        } else {
            let idx = self.buffer.len() - self.remaining;
            Some(self.buffer.get(idx))
        }
    }

    /// One step: yields the element under the current position and
    /// advances past it.  Once the remaining count is zero the step yields
    /// nothing and leaves the iterator unchanged, so every later step
    /// yields nothing as well.
    pub fn next(&mut self) -> (step: Option<T>)
        requires
            old(self).wf(),
        ensures
            final(self).wf(),
            final(self).buffer == old(self).buffer,
            step == old(self).spec_step().0,
            *final(self) == old(self).spec_step().1,
            old(self).remaining == 0 ==> step is None && *final(self) == *old(self),
            old(self).remaining > 0 ==> final(self).remaining == old(self).remaining - 1 && step
                == Some(old(self).buffer@[old(self).cursor()]),
    {
        if self.remaining == 0 {
            None
        } else {
            let idx = self.buffer.len() - self.remaining;
            let x = self.buffer.get(idx);
            self.remaining = self.remaining - 1;
            Some(x)
        }
    }

    /// Steps the iterator to exhaustion and collects the yielded elements:
    /// exactly the elements not yet stepped over, in step order.
    pub fn collect_remaining(self) -> (elems: Vec<T>)
        requires
            self.wf(),
        ensures
            elems@ == self.remaining_elems(),
    {
        let ghost orig = self;
        let mut it = self;
        let mut elems: Vec<T> = Vec::new();
        while it.remaining > 0
            invariant
                orig.wf(),
                it.wf(),
                it.buffer == orig.buffer,
                it.remaining <= orig.remaining,
                elems@ =~= orig.buffer@.subrange(orig.cursor(), it.cursor()),
            decreases it.remaining,
        {
            match it.next() {
                Some(x) => {
                    elems.push(x);
                    proof {
                        assert(elems@ =~= orig.buffer@.subrange(orig.cursor(), it.cursor()));
                    }
                },
                None => {
                    proof {
                        assert(false);
                    }
                },
            }
        }
        proof {
            assert(elems@ =~= orig.remaining_elems());
        }
        elems
    }
}

impl<T: Copy> NpySingleIter<T, ReadWrite> {
    /// Writes a value to the element under the current position.  The
    /// remaining count and every other element stay as they were.
    pub fn write(&mut self, value: T)
        requires
            old(self).wf(),
            old(self).remaining > 0,
        ensures
            final(self).wf(),
            final(self).remaining == old(self).remaining,
            final(self).buffer.shape@ == old(self).buffer.shape@,
            final(self).buffer@ == old(self).buffer@.update(old(self).cursor(), value),
    {
        let idx = self.buffer.len() - self.remaining;
        self.buffer.data[idx] = value;
    }
}

} // verus!
