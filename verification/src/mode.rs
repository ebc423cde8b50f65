//! The access-mode algebra: a type-level list of per-buffer access modes.
//!
//! A multi-buffer iterator registers its buffers one at a time; each
//! registration appends one access mode to an ordered, compile-time-only
//! mode list.  The list is encoded as a nested type: `()` is the empty
//! list, and [`RO<S>`] and [`RW<S>`] append a read-only or read-write mode
//! to the list `S`.  The spec function [`MultiIterMode::modes`] is the
//! list's mathematical value, one mode per registered buffer in
//! registration order, and [`MultiIterMode::flags`] is its translation to
//! the per-buffer NumPy access-flag constants.
//!
//! Two capability markers restrict which lists qualify for which iterator:
//! [`MultiIterModeWithManyArrays`] admits exactly the lists of two or more
//! modes to the lockstep multi-iterator role, and [`IterMode`] admits the
//! two one-mode lists to the single-buffer role.  Each marker carries its
//! arity bound as a proof obligation on every implementation.

use core::marker::PhantomData;
use vstd::prelude::*;

use crate::flags::{NPY_ITER_READONLY, NPY_ITER_READWRITE};

verus! {

/// The access mode of one registered buffer.
#[derive(Clone, Copy, Debug, Eq, PartialEq)]
pub enum AccessMode {
    /// The buffer's elements may only be read.
    ReadOnly,
    /// The buffer's elements may be read and overwritten.
    ReadWrite,
}

/// The NumPy per-buffer access flag that a mode translates to.
pub open spec fn mode_bits(mode: AccessMode) -> u32 {
    match mode {
        AccessMode::ReadOnly => NPY_ITER_READONLY,
        AccessMode::ReadWrite => NPY_ITER_READWRITE,
    }
}

/// A type-level list of access modes, one per registered buffer.
pub trait MultiIterMode {
    /// The ordered modes of the registered buffers, in registration order.
    spec fn modes() -> Seq<AccessMode>;

    /// The per-buffer NumPy access flags, in registration order.
    fn flags() -> (v: Vec<u32>)
        ensures
            v@ == Self::modes().map_values(|m: AccessMode| mode_bits(m)),
    ;
}

impl MultiIterMode for () {
    open spec fn modes() -> Seq<AccessMode> {
        Seq::empty()
    }

    fn flags() -> (v: Vec<u32>) {
        let v: Vec<u32> = Vec::new();
        proof {
            assert(v@ =~= Self::modes().map_values(|m: AccessMode| mode_bits(m)));
        }
        v
    }
}

/// The mode list `S` with one read-only mode appended.
pub struct RO<S: MultiIterMode>(PhantomData<S>);

/// The mode list `S` with one read-write mode appended.
pub struct RW<S: MultiIterMode>(PhantomData<S>);

impl<S: MultiIterMode> MultiIterMode for RO<S> {
    open spec fn modes() -> Seq<AccessMode> {
        S::modes().push(AccessMode::ReadOnly)
    }

    fn flags() -> (v: Vec<u32>) {
        let mut v = S::flags();
        v.push(NPY_ITER_READONLY);
        proof {
            assert(v@ =~= Self::modes().map_values(|m: AccessMode| mode_bits(m)));
        }
        v
    }
}

impl<S: MultiIterMode> MultiIterMode for RW<S> {
    open spec fn modes() -> Seq<AccessMode> {
        S::modes().push(AccessMode::ReadWrite)
    }

    fn flags() -> (v: Vec<u32>) {
        let mut v = S::flags();
        v.push(NPY_ITER_READWRITE);
        proof {
            assert(v@ =~= Self::modes().map_values(|m: AccessMode| mode_bits(m)));
        }
        v
    }
}

/// The mode lists that qualify for the lockstep multi-iterator role: those
/// of two or more registered buffers.
pub trait MultiIterModeWithManyArrays: MultiIterMode {
    /// Every qualifying mode list registers at least two buffers.
    proof fn arity_at_least_two()
        ensures
            Self::modes().len() >= 2,
    ;
}

impl MultiIterModeWithManyArrays for RO<RO<()>> {
    proof fn arity_at_least_two() {
    }
}

impl MultiIterModeWithManyArrays for RO<RW<()>> {
    proof fn arity_at_least_two() {
    }
}

impl MultiIterModeWithManyArrays for RW<RO<()>> {
    proof fn arity_at_least_two() {
    }
}

impl MultiIterModeWithManyArrays for RW<RW<()>> {
    proof fn arity_at_least_two() {
    }
}

impl<S: MultiIterModeWithManyArrays> MultiIterModeWithManyArrays for RO<S> {
    proof fn arity_at_least_two() {
        S::arity_at_least_two();
    }
}

impl<S: MultiIterModeWithManyArrays> MultiIterModeWithManyArrays for RW<S> {
    proof fn arity_at_least_two() {
        S::arity_at_least_two();
    }
}

/// The mode lists that qualify for the single-buffer iterator role: those
/// of exactly one registered buffer.
pub trait IterMode: MultiIterMode {
    /// A single-buffer mode list registers exactly one buffer.
    proof fn arity_is_one()
        ensures
            Self::modes().len() == 1,
    ;
}

/// The mode list of a read-only single-buffer iterator.
pub type Readonly = RO<()>;

/// The mode list of a read-write single-buffer iterator.
pub type ReadWrite = RW<()>;

impl IterMode for RO<()> {
    proof fn arity_is_one() {
    }
}

impl IterMode for RW<()> {
    proof fn arity_is_one() {
    }
}

} // verus!
