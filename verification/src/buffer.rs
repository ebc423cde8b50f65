//! The buffer model: a strided, multi-dimensional block of elements held as
//! a shape vector and the elements in storage order.
//!
//! The foreign array runtime owns the real buffers and hands iterators only
//! an opaque view of them; here a buffer is the plain value that such a
//! view reads: its shape and its elements, flattened in storage order,
//! under the invariant that the shape's element count equals the length of
//! the flat data.  A buffer moves into a builder when it is registered and
//! is handed back when the iterator is done (or when construction fails),
//! so the iteration's exclusive claim on it is ownership, not aliasing.

use vstd::arithmetic::mul::{
    lemma_mul_increases, lemma_mul_is_associative, lemma_mul_nonnegative,
};
use vstd::prelude::*;

verus! {

/// The number of elements that a shape describes: the product of its
/// dimension lengths (one for the zero-dimensional shape).
pub open spec fn shape_product(dims: Seq<usize>) -> int
    decreases dims.len(),
{
    if dims.len() == 0 {
        1
    } else {
        dims[0] * shape_product(dims.drop_first())
    }
}

/// A shape's element count is never negative.
pub proof fn lemma_shape_product_nonneg(dims: Seq<usize>)
    ensures
        shape_product(dims) >= 0,
    decreases dims.len(),
{
    if dims.len() > 0 {
        lemma_shape_product_nonneg(dims.drop_first());
        lemma_mul_nonnegative(dims[0] as int, shape_product(dims.drop_first()));
    }
}

/// A shape with a zero dimension describes no elements.
pub proof fn lemma_shape_product_zero(dims: Seq<usize>, i: int)
    requires
        0 <= i < dims.len(),
        dims[i] == 0,
    ensures
        shape_product(dims) == 0,
    decreases dims.len(),
{
    if i == 0 {
    } else {
        lemma_shape_product_zero(dims.drop_first(), i - 1);
    }
}

/// A shape whose dimensions are all positive describes at least one element.
pub proof fn lemma_shape_product_pos(dims: Seq<usize>)
    requires
        forall|j: int| 0 <= j < dims.len() ==> dims[j] >= 1,
    ensures
        shape_product(dims) >= 1,
    decreases dims.len(),
{
    if dims.len() > 0 {
        lemma_shape_product_pos(dims.drop_first());
        lemma_mul_increases(dims[0] as int, shape_product(dims.drop_first()));
    }
}

/// Splitting the product at a dimension: the count over the suffix from
/// `i` is that dimension times the count over the suffix from `i + 1`.
pub proof fn lemma_shape_product_skip(dims: Seq<usize>, i: int)
    requires
        0 <= i < dims.len(),
    ensures
        shape_product(dims.skip(i)) == dims[i] * shape_product(dims.skip(i + 1)),
{
    assert(dims.skip(i).drop_first() =~= dims.skip(i + 1));
}

/// The element count of a shape, or nothing where the mathematical count
/// does not fit a machine word.
fn checked_product(dims: &Vec<usize>) -> (count: Option<usize>)
    ensures
        match count {
            Some(p) => p == shape_product(dims@),
            None => shape_product(dims@) > usize::MAX,
        },
{
    let n = dims.len();
    let mut i: usize = 0;
    while i < n
        invariant
            0 <= i <= n,
            n == dims@.len(),
            forall|j: int| 0 <= j < i ==> dims@[j] >= 1,
        decreases n - i,
    {
        if dims[i] == 0 {
            proof {
                lemma_shape_product_zero(dims@, i as int);
            }
            return Some(0);
        }
        i = i + 1;
    }
    let mut acc: usize = 1;
    let mut k: usize = 0;
    proof {
        assert(dims@.skip(0) =~= dims@);
    }
    while k < n
        invariant
            0 <= k <= n,
            n == dims@.len(),
            forall|j: int| 0 <= j < n ==> dims@[j] >= 1,
            acc >= 1,
            shape_product(dims@) == acc * shape_product(dims@.skip(k as int)),
        decreases n - k,
    {
        let d = dims[k];
        proof {
            lemma_shape_product_skip(dims@, k as int);
            lemma_shape_product_pos(dims@.skip(k as int + 1));
            lemma_mul_is_associative(
                acc as int,
                d as int,
                shape_product(dims@.skip(k as int + 1)),
            );
        }
        match acc.checked_mul(d) {
            Some(next) => {
                proof {
                    lemma_mul_increases(d as int, acc as int);
                    vstd::arithmetic::mul::lemma_mul_is_commutative(d as int, acc as int);
                }
                acc = next;
            },
            None => {
                proof {
                    lemma_mul_increases(
                        shape_product(dims@.skip(k as int + 1)),
                        acc as int * d as int,
                    );
                    vstd::arithmetic::mul::lemma_mul_is_commutative(
                        acc as int * d as int,
                        shape_product(dims@.skip(k as int + 1)),
                    );
                }
                return None;
            },
        }
        k = k + 1;
    }
    proof {
        assert(dims@.skip(n as int) =~= Seq::<usize>::empty());
        assert(shape_product(Seq::<usize>::empty()) == 1);
    }
    Some(acc)
}

/// A multi-dimensional block of elements: its shape, and its elements
/// flattened in storage order.
#[derive(Debug)]
pub struct NpyBuffer<T> {
    /// The dimension lengths, outermost first.
    pub shape: Vec<usize>,
    /// The elements, flattened in storage order.
    pub data: Vec<T>,
}

impl<T> View for NpyBuffer<T> {
    type V = Seq<T>;

    open spec fn view(&self) -> Seq<T> {
        self.data@
    }
}

impl<T> NpyBuffer<T> {
    /// The buffer's invariant: the shape describes exactly the elements
    /// that the flat data holds.
    pub open spec fn wf(self) -> bool {
        shape_product(self.shape@) == self.data@.len()
    }

    /// Assembles a buffer from a shape and the matching flat elements, and
    /// returns both unchanged where their sizes disagree.
    pub fn new(shape: Vec<usize>, data: Vec<T>) -> (result: Result<Self, (Vec<usize>, Vec<T>)>)
        ensures
            match result {
                Ok(b) => (shape_product(shape@) == data@.len() && b.shape@ == shape@ && b@
                    == data@ && b.wf()),
                Err(back) => (shape_product(shape@) != data@.len() && back.0@ == shape@
                    && back.1@ == data@),
            },
    {
        let element_count = data.len();
        match checked_product(&shape) {
            Some(count) => {
                if count == element_count {
                    Ok(NpyBuffer { shape, data })
                } else {
                    Err((shape, data))
                }
            },
            None => Err((shape, data)),
        }
    }

    /// Wraps flat elements as a rank-one buffer.
    pub fn from_elems(data: Vec<T>) -> (b: Self)
        ensures
            b.wf(),
            b@ == data@,
            b.shape@ =~= seq![data@.len() as usize],
    {
        let n = data.len();
        let mut shape: Vec<usize> = Vec::new();
        shape.push(n);
        let b = NpyBuffer { shape, data };
        proof {
            assert(b.shape@.drop_first() =~= Seq::<usize>::empty());
            assert(shape_product(Seq::<usize>::empty()) == 1);
        }
        b
    }

    /// The number of elements.
    pub fn len(&self) -> (n: usize)
        ensures
            n == self@.len(),
    {
        self.data.len()
    }

    /// The dimension lengths, outermost first.
    pub fn shape(&self) -> (s: &Vec<usize>)
        ensures
            s@ == self.shape@,
    {
        &self.shape
    }

    /// Takes the flat elements back out of the buffer.
    pub fn into_elems(self) -> (data: Vec<T>)
        ensures
            data@ == self@,
    {
        self.data
    }

    /// Whether this buffer and another have the same shape.
    pub fn same_shape<U>(&self, other: &NpyBuffer<U>) -> (same: bool)
        ensures
            same == (self.shape@ == other.shape@),
    {
        let n = self.shape.len();
        if n != other.shape.len() {
            proof {
                assert(self.shape@ != other.shape@);
            }
            return false;
        }
        let mut i: usize = 0;
        while i < n
            invariant
                0 <= i <= n,
                n == self.shape@.len() == other.shape@.len(),
                forall|j: int| 0 <= j < i ==> self.shape@[j] == other.shape@[j],
            decreases n - i,
        {
            if self.shape[i] != other.shape[i] {
                proof {
                    assert(self.shape@ != other.shape@);
                }
                return false;
            }
            i = i + 1;
        }
        proof {
            assert(self.shape@ =~= other.shape@);
        }
        true
    }
}

impl<T: Copy> NpyBuffer<T> {
    /// The element at a position of the storage order.
    pub fn get(&self, i: usize) -> (x: T)
        requires
            i < self@.len(),
        ensures
            x == self@[i as int],
    {
        self.data[i]
    }
}

} // verus!
