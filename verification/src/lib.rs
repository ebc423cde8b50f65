//! Typed, safe iteration primitives over strided, multi-dimensional numeric
//! buffers, in the style of NumPy's native array-iterator protocol.
//!
//! The NumPy C runtime owns array iteration behind an opaque handle and an
//! "advance" callback; this crate models the safe consumption of that
//! protocol on plain values, so that the builder logic, the access-mode
//! algebra, the stepping discipline and the exhaustion rules can be stated
//! and verified.  A buffer is held as a shape vector together with its
//! elements in storage order; the handle's observable state (the current
//! data-pointer table and the cached remaining-element count) becomes a
//! cursor and a counter with explicit invariants.
//!
//! Two design decisions carry the protocol's safety rules into this
//! setting.  Steps yield elements by value and writes go through the
//! iterator itself, so nothing a step hands out can outlive the position
//! it was read from — the rule that a yielded reference must not be kept
//! across the next advance.  And a buffer moves into its builder and is
//! handed back when the iterator is done or construction fails, so the
//! iteration's exclusive claim on the buffer, and the exactly-once release
//! of the underlying resource, are ownership facts rather than promises.

pub mod buffer;
pub mod error;
pub mod flags;
pub mod laws;
pub mod mode;
pub mod multi;
pub mod single;

pub use buffer::NpyBuffer;
pub use error::{ConstructionError, NpyError};
pub use flags::NpyIterFlag;
pub use multi::{NpyMultiIter, NpyMultiIterBuilder};
pub use single::{NpySingleIter, NpySingleIterBuilder};
pub use mode::{
    AccessMode, IterMode, MultiIterMode, MultiIterModeWithManyArrays, ReadWrite, Readonly, RO, RW,
};
