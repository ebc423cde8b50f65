//! Iterator construction flags and their translation to the NumPy C
//! constants.
//!
//! The NumPy iterator constructors take a 32-bit mask of global behaviour
//! flags together with one access-mode flag per registered buffer.  The
//! constants below are the values documented for the C API; [`NpyIterFlag`]
//! names the global flags that a builder may set, and each registered
//! buffer's access mode contributes [`NPY_ITER_READONLY`] or
//! [`NPY_ITER_READWRITE`].

use vstd::prelude::*;

verus! {

/// Requests unifying the buffers' element types to a common one.
pub const NPY_ITER_COMMON_DTYPE: u32 = 0x00000010;

/// Permits elements that hold object references.
pub const NPY_ITER_REFS_OK: u32 = 0x00000020;

/// Permits construction over buffers with zero elements.
pub const NPY_ITER_ZEROSIZE_OK: u32 = 0x00000040;

/// Permits an output buffer with a broadcast-zero stride (reduction).
pub const NPY_ITER_REDUCE_OK: u32 = 0x00000080;

/// Enables iteration restricted to a sub-range of the elements.
pub const NPY_ITER_RANGED: u32 = 0x00000100;

/// Enables internal buffering.
pub const NPY_ITER_BUFFERED: u32 = 0x00000200;

/// Allows the innermost loop block to grow.
pub const NPY_ITER_GROWINNER: u32 = 0x00000400;

/// Delays buffer allocation until first use.
pub const NPY_ITER_DELAY_BUFALLOC: u32 = 0x00000800;

/// Forbids reversing the fastest-varying axis.
pub const NPY_ITER_DONT_NEGATE_STRIDES: u32 = 0x00001000;

/// Permits safe copy-based resolution of overlapping buffers.
pub const NPY_ITER_COPY_IF_OVERLAP: u32 = 0x00002000;

/// Access-mode flag of a buffer registered for reading only.
pub const NPY_ITER_READONLY: u32 = 0x00020000;

/// Access-mode flag of a buffer registered for reading and writing.
pub const NPY_ITER_READWRITE: u32 = 0x00010000;

/// Flags for constructing an iterator.
///
/// Each flag stands for one named, independently selectable iteration
/// behaviour; a builder accumulates them by OR-ing the corresponding bits
/// into its mask.  Access modes and arity are not flags here: they are
/// carried by the iterator types themselves.
#[derive(Clone, Copy, Debug, Eq, PartialEq)]
pub enum NpyIterFlag {
    /// Unify the buffers' element types to a common one.
    CommonDtype,
    /// Permit elements that hold object references.
    RefsOk,
    /// Permit construction over buffers with zero elements.
    ZerosizeOk,
    /// Permit an output buffer with a broadcast-zero stride.
    ReduceOk,
    /// Enable iteration restricted to a sub-range of the elements.
    Ranged,
    /// Enable internal buffering.
    Buffered,
    /// Allow the innermost loop block to grow.
    GrowInner,
    /// Delay buffer allocation until first use.
    DelayBufAlloc,
    /// Forbid reversing the fastest-varying axis.
    DontNegateStrides,
    /// Permit safe copy-based resolution of overlapping buffers.
    CopyIfOverlap,
}

/// The bit that a flag contributes to a construction mask.
pub open spec fn flag_bits(flag: NpyIterFlag) -> u32 {
    match flag {
        NpyIterFlag::CommonDtype => NPY_ITER_COMMON_DTYPE,
        NpyIterFlag::RefsOk => NPY_ITER_REFS_OK,
        NpyIterFlag::ZerosizeOk => NPY_ITER_ZEROSIZE_OK,
        NpyIterFlag::ReduceOk => NPY_ITER_REDUCE_OK,
        NpyIterFlag::Ranged => NPY_ITER_RANGED,
        NpyIterFlag::Buffered => NPY_ITER_BUFFERED,
        NpyIterFlag::GrowInner => NPY_ITER_GROWINNER,
        NpyIterFlag::DelayBufAlloc => NPY_ITER_DELAY_BUFALLOC,
        NpyIterFlag::DontNegateStrides => NPY_ITER_DONT_NEGATE_STRIDES,
        NpyIterFlag::CopyIfOverlap => NPY_ITER_COPY_IF_OVERLAP,
    }
}

/// Whether a construction mask has a flag's bit set.
pub open spec fn has_flag(mask: u32, flag: NpyIterFlag) -> bool {
    mask & flag_bits(flag) != 0
}

impl NpyIterFlag {
    /// The NumPy C constant standing for this flag.
    pub fn to_c_enum(self) -> (bits: u32)
        ensures
            bits == flag_bits(self),
    {
        match self {
            NpyIterFlag::CommonDtype => NPY_ITER_COMMON_DTYPE,
            NpyIterFlag::RefsOk => NPY_ITER_REFS_OK,
            NpyIterFlag::ZerosizeOk => NPY_ITER_ZEROSIZE_OK,
            NpyIterFlag::ReduceOk => NPY_ITER_REDUCE_OK,
            NpyIterFlag::Ranged => NPY_ITER_RANGED,
            NpyIterFlag::Buffered => NPY_ITER_BUFFERED,
            NpyIterFlag::GrowInner => NPY_ITER_GROWINNER,
            NpyIterFlag::DelayBufAlloc => NPY_ITER_DELAY_BUFALLOC,
            NpyIterFlag::DontNegateStrides => NPY_ITER_DONT_NEGATE_STRIDES,
            NpyIterFlag::CopyIfOverlap => NPY_ITER_COPY_IF_OVERLAP,
        }
    }
}

/// OR-ing a flag's bit into a mask sets exactly that bit: the flag then
/// reads as present, and no other flag's reading changes.
pub proof fn lemma_set_flag(mask: u32, flag: NpyIterFlag, other: NpyIterFlag)
    ensures
        has_flag(mask | flag_bits(flag), flag),
        flag_bits(other) != flag_bits(flag) ==> has_flag(mask | flag_bits(flag), other)
            == has_flag(mask, other),
{
    let b = flag_bits(flag);
    let o = flag_bits(other);
    lemma_flag_bits_nonzero(flag);
    assert((mask | b) & b != 0) by (bit_vector)
        requires
            b != 0,
    ;
    if o != b {
        lemma_flag_bits_disjoint(flag, other);
        assert(((mask | b) & o != 0) == (mask & o != 0)) by (bit_vector)
            requires
                b & o == 0,
        ;
    }
}

/// A mask holding only an access-mode flag has no option flag set.
pub proof fn lemma_access_mask_has_no_option(flag: NpyIterFlag)
    ensures
        !has_flag(NPY_ITER_READONLY, flag),
        !has_flag(NPY_ITER_READWRITE, flag),
{
    let b = flag_bits(flag);
    assert(0x20000u32 & b == 0 && 0x10000u32 & b == 0) by (bit_vector)
        requires
            (b == 0x10u32 || b == 0x20u32 || b == 0x40u32 || b == 0x80u32 || b == 0x100u32
                || b == 0x200u32 || b == 0x400u32 || b == 0x800u32 || b == 0x1000u32
                || b == 0x2000u32),
    ;
}

/// Every flag contributes a nonzero bit.
pub proof fn lemma_flag_bits_nonzero(flag: NpyIterFlag)
    ensures
        flag_bits(flag) != 0,
{
}

/// Distinct flags never share a set bit: each flag owns one bit.
pub proof fn lemma_flag_bits_disjoint(a: NpyIterFlag, b: NpyIterFlag)
    requires
        flag_bits(a) != flag_bits(b),
    ensures
        flag_bits(a) & flag_bits(b) == 0,
{
    let x = flag_bits(a);
    let y = flag_bits(b);
    assert(x & y == 0) by (bit_vector)
        requires
            (x == 0x10u32 || x == 0x20u32 || x == 0x40u32 || x == 0x80u32 || x == 0x100u32
                || x == 0x200u32 || x == 0x400u32 || x == 0x800u32 || x == 0x1000u32
                || x == 0x2000u32),
            (y == 0x10u32 || y == 0x20u32 || y == 0x40u32 || y == 0x80u32 || y == 0x100u32
                || y == 0x200u32 || y == 0x400u32 || y == 0x800u32 || y == 0x1000u32
                || y == 0x2000u32),
            x != y,
    ;
}

} // verus!
