//! General facts about whole iterations, stated over the buffers' contents
//! and proved end to end for unsigned elements.
//!
//! Two lemmas fix the stepping discipline itself: exhaustion is terminal,
//! so a step that yields nothing leaves either iterator unchanged and
//! every later step yields nothing as well.  The remaining functions each
//! drive an iterator through its full stepping protocol, and their
//! contracts pin the aggregate outcome down: a read-only pass yields one
//! result per element and sums to the buffer's sum; a read-write pass that
//! doubles under every step rewrites the buffer to twice its contents (and
//! a fresh read-only pass then reads those doubles back); a lockstep
//! read-only pair sums its elementwise products to the buffers' dot
//! product; and a lockstep pass that writes twice the read-only element
//! into the writable slot leaves the writable buffer holding exactly twice
//! the read-only one.

use vstd::arithmetic::mul::lemma_mul_nonnegative;
use vstd::pervasive::unreached;
use vstd::prelude::*;

use crate::buffer::NpyBuffer;
use crate::flags::{lemma_set_flag, NpyIterFlag, NPY_ITER_READONLY, NPY_ITER_READWRITE};
use crate::mode::{
    AccessMode, IterMode, MultiIterMode, MultiIterModeWithManyArrays, ReadWrite, Readonly, RO, RW,
};
use crate::multi::NpyMultiIter;
use crate::single::{NpySingleIter, NpySingleIterBuilder};

verus! {

/// The sum of a sequence's elements from a position on.
pub open spec fn sum_from(s: Seq<u64>, i: int) -> int
    decreases s.len() - i,
{
    if i < 0 || i >= s.len() {
        0
    } else {
        s[i] + sum_from(s, i + 1)
    }
}

/// The sum of a sequence's elements.
pub open spec fn seq_sum(s: Seq<u64>) -> int {
    sum_from(s, 0)
}

/// A suffix sum of unsigned elements is never negative.
pub proof fn lemma_sum_from_nonneg(s: Seq<u64>, i: int)
    ensures
        sum_from(s, i) >= 0,
    decreases s.len() - i,
{
    if 0 <= i < s.len() {
        lemma_sum_from_nonneg(s, i + 1);
    }
}

/// The sum of the elementwise products of two sequences from a position on.
pub open spec fn dot_from(a: Seq<u64>, b: Seq<u64>, i: int) -> int
    decreases a.len() - i,
{
    if i < 0 || i >= a.len() || i >= b.len() {
        0
    } else {
        a[i] * b[i] + dot_from(a, b, i + 1)
    }
}

/// The dot product of two sequences.
pub open spec fn dot(a: Seq<u64>, b: Seq<u64>) -> int {
    dot_from(a, b, 0)
}

/// A suffix dot product of unsigned elements is never negative.
pub proof fn lemma_dot_from_nonneg(a: Seq<u64>, b: Seq<u64>, i: int)
    ensures
        dot_from(a, b, i) >= 0,
    decreases a.len() - i,
{
    if 0 <= i < a.len() && i < b.len() {
        lemma_mul_nonnegative(a[i] as int, b[i] as int);
        lemma_dot_from_nonneg(a, b, i + 1);
    }
}

/// Exhaustion is terminal for a single-buffer iterator: a step that yields
/// nothing leaves the iterator as it was, so every later step yields
/// nothing as well.
pub proof fn lemma_single_step_terminal<T, I: IterMode>(it: NpySingleIter<T, I>)
    requires
        it.spec_step().0 is None,
    ensures
        it.spec_step().1 == it,
        it.spec_step().1.spec_step().0 is None,
{
}

/// Exhaustion is terminal for a multi-buffer iterator: a step that yields
/// nothing leaves the iterator as it was, so every later step yields
/// nothing as well.
pub proof fn lemma_multi_step_terminal<T, S: MultiIterModeWithManyArrays>(
    it: NpyMultiIter<T, S>,
)
    requires
        it.spec_step().0 is None,
    ensures
        it.spec_step().1 == it,
        it.spec_step().1.spec_step().0 is None,
{
}

/// Stepping a fresh read-only iterator to exhaustion yields one result per
/// buffer element, and the results sum to the buffer's sum.
pub fn sum_single_readonly(it: NpySingleIter<u64, Readonly>) -> (outcome: (usize, u64))
    requires
        it.wf(),
        it.cursor() == 0,
        seq_sum(it.buffer@) <= u64::MAX,
    ensures
        outcome.0 == it.buffer@.len(),
        outcome.1 == seq_sum(it.buffer@),
{
    let mut iter = it;
    let total = iter.buffer.len();
    let mut count: usize = 0;
    let mut sum: u64 = 0;
    while iter.remaining > 0
        invariant
            iter.wf(),
            iter.buffer == it.buffer,
            total == it.buffer@.len(),
            count == iter.cursor(),
            sum == seq_sum(it.buffer@) - sum_from(it.buffer@, iter.cursor()),
            seq_sum(it.buffer@) <= u64::MAX,
        decreases iter.remaining,
    {
        let ghost at = iter.cursor();
        match iter.next() {
            Some(x) => {
                proof {
                    lemma_sum_from_nonneg(it.buffer@, at + 1);
                }
                sum = sum + x;
                count = count + 1;
            },
            None => {
                proof {
                    assert(false);
                }
            },
        }
    }
    (count, sum)
}

/// Doubling the element under every step of a fresh read-write iterator
/// rewrites the buffer to exactly twice its original contents.
pub fn double_single_readwrite(it: NpySingleIter<u64, ReadWrite>) -> (buffer: NpyBuffer<u64>)
    requires
        it.wf(),
        it.cursor() == 0,
        forall|i: int| 0 <= i < it.buffer@.len() ==> it.buffer@[i] <= u64::MAX / 2,
    ensures
        buffer.shape@ == it.buffer.shape@,
        buffer@.len() == it.buffer@.len(),
        forall|i: int| 0 <= i < buffer@.len() ==> buffer@[i] == 2 * it.buffer@[i],
{
    let mut iter = it;
    while iter.remaining > 0
        invariant
            iter.wf(),
            iter.buffer.shape@ == it.buffer.shape@,
            iter.buffer@.len() == it.buffer@.len(),
            iter.remaining <= iter.buffer@.len(),
            forall|i: int| 0 <= i < it.buffer@.len() ==> it.buffer@[i] <= u64::MAX / 2,
            forall|j: int| 0 <= j < iter.cursor() ==> iter.buffer@[j] == 2 * it.buffer@[j],
            forall|j: int| iter.cursor() <= j < iter.buffer@.len() ==> iter.buffer@[j]
                == it.buffer@[j],
        decreases iter.remaining,
    {
        match iter.peek() {
            Some(x) => {
                iter.write(2 * x);
                let _step = iter.next();
            },
            None => {
                proof {
                    assert(false);
                }
            },
        }
    }
    iter.into_buffer()
}

/// Doubling every element of a buffer through a fresh read-write pass and
/// then re-reading it through a fresh read-only pass yields exactly twice
/// the original elements, whatever the buffer holds.
pub fn double_then_reread(buffer: NpyBuffer<u64>) -> (reread: Vec<u64>)
    requires
        buffer.wf(),
        forall|i: int| 0 <= i < buffer@.len() ==> buffer@[i] <= u64::MAX / 2,
    ensures
        reread@.len() == buffer@.len(),
        forall|i: int| 0 <= i < reread@.len() ==> reread@[i] == 2 * buffer@[i],
{
    let writer = match NpySingleIterBuilder::readwrite(buffer).set(
        NpyIterFlag::ZerosizeOk,
    ).build() {
        Ok(it) => it,
        Err(_) => {
            proof {
                lemma_set_flag(
                    NPY_ITER_READWRITE,
                    NpyIterFlag::ZerosizeOk,
                    NpyIterFlag::ZerosizeOk,
                );
            }
            unreached()
        },
    };
    let doubled = double_single_readwrite(writer);
    let reader = match NpySingleIterBuilder::readonly(doubled).set(
        NpyIterFlag::ZerosizeOk,
    ).build() {
        Ok(it) => it,
        Err(_) => {
            proof {
                lemma_set_flag(
                    NPY_ITER_READONLY,
                    NpyIterFlag::ZerosizeOk,
                    NpyIterFlag::ZerosizeOk,
                );
            }
            unreached()
        },
    };
    proof {
        assert(reader.remaining_elems() =~= reader.buffer@);
    }
    reader.collect_remaining()
}

/// Stepping a fresh two-buffer read-only iterator to exhaustion and
/// summing the products of each yielded pair equals the dot product of
/// the two buffers.
pub fn product_sum_multi_readonly(it: NpyMultiIter<u64, RO<RO<()>>>) -> (sum: u64)
    requires
        it.wf(),
        it.cursor() == 0,
        dot(it.buffers@[0]@, it.buffers@[1]@) <= u64::MAX,
    ensures
        sum == dot(it.buffers@[0]@, it.buffers@[1]@),
{
    let ghost a = it.buffers@[0]@;
    let ghost b = it.buffers@[1]@;
    let mut iter = it;
    let mut sum: u64 = 0;
    while iter.remaining > 0
        invariant
            iter.wf(),
            iter.buffers == it.buffers,
            sum == dot(a, b) - dot_from(a, b, iter.cursor()),
            dot(a, b) <= u64::MAX,
            a == it.buffers@[0]@,
            b == it.buffers@[1]@,
        decreases iter.remaining,
    {
        let ghost at = iter.cursor();
        match iter.next() {
            Some(row) => {
                proof {
                    assert(row@.len() == 2) by {
                        assert(RO::<RO<()>>::modes().len() == 2);
                    }
                    lemma_dot_from_nonneg(a, b, at + 1);
                    lemma_mul_nonnegative(a[at] as int, b[at] as int);
                }
                let x = row[0];
                let y = row[1];
                let term = x * y;
                sum = sum + term;
            },
            None => {
                proof {
                    assert(false);
                }
            },
        }
    }
    sum
}

/// Writing twice the read-only element into the writable slot at every
/// step of a fresh (read-only, read-write) iterator leaves the writable
/// buffer holding exactly twice the read-only one, which stays unchanged.
pub fn double_multi_into_writable(it: NpyMultiIter<u64, RW<RO<()>>>) -> (buffers: Vec<
    NpyBuffer<u64>,
>)
    requires
        it.wf(),
        it.cursor() == 0,
        forall|i: int| 0 <= i < it.buffers@[0]@.len() ==> it.buffers@[0]@[i] <= u64::MAX / 2,
    ensures
        buffers@.len() == 2,
        buffers@[0] == it.buffers@[0],
        buffers@[1].shape@ == it.buffers@[1].shape@,
        buffers@[1]@.len() == it.buffers@[1]@.len(),
        forall|i: int| 0 <= i < buffers@[1]@.len() ==> buffers@[1]@[i] == 2 * it.buffers@[0]@[i],
{
    proof {
        assert(RW::<RO<()>>::modes().len() == 2);
        assert(RW::<RO<()>>::modes()[1] == AccessMode::ReadWrite);
    }
    let mut iter = it;
    while iter.remaining > 0
        invariant
            it.wf(),
            iter.wf(),
            iter.buffers@.len() == 2,
            iter.buffers@[0] == it.buffers@[0],
            forall|i: int| 0 <= i < it.buffers@[0]@.len() ==> it.buffers@[0]@[i] <= u64::MAX / 2,
            iter.buffers@[1].shape@ == it.buffers@[1].shape@,
            iter.buffers@[1]@.len() == it.buffers@[1]@.len(),
            iter.total() == it.total(),
            forall|j: int| 0 <= j < iter.cursor() ==> iter.buffers@[1]@[j] == 2 * it.buffers@[0]@[j],
        decreases iter.remaining,
    {
        match iter.peek() {
            Some(row) => {
                let x = row[0];
                iter.write(1, 2 * x);
                let _step = iter.next();
            },
            None => {
                proof {
                    assert(false);
                }
            },
        }
    }
    iter.into_buffers()
}

} // verus!
