//! Construction failure: the error that `build` reports, carrying the
//! foreign runtime's complaint and the registered buffers.
//!
//! The foreign constructor refuses some configurations (it returns a null
//! handle, and its last raised error says why); a partially built handle is
//! torn down before the failure propagates, so nothing leaks.  Here the
//! registered buffers are owned values, and the error hands every one of
//! them back: the no-leak rule becomes an equation on the error itself.

use vstd::prelude::*;

use crate::buffer::NpyBuffer;

verus! {

/// The runtime's reason for refusing a construction.
#[derive(Clone, Copy, Debug, Eq, PartialEq, Structural)]
pub enum NpyError {
    /// A registered buffer has zero elements and zero-size iteration was
    /// not enabled.
    ZeroSize,
    /// The registered buffers' shapes do not agree, so they cannot be
    /// stepped in lockstep.
    ShapeMismatch,
}

/// A failed `build`: the reason, and every registered buffer handed back
/// in registration order.
#[derive(Debug)]
pub struct ConstructionError<T> {
    /// The runtime's reason for the refusal.
    pub error: NpyError,
    /// The registered buffers, unchanged and in registration order.
    pub buffers: Vec<NpyBuffer<T>>,
}

impl<T> ConstructionError<T> {
    /// The runtime's reason for the refusal.
    pub fn kind(&self) -> (reason: NpyError)
        ensures
            reason == self.error,
    {
        self.error
    }

    /// Takes the registered buffers back, in registration order.
    pub fn into_buffers(self) -> (buffers: Vec<NpyBuffer<T>>)
        ensures
            buffers == self.buffers,
    {
        self.buffers
    }
}

} // verus!
