//! The two kinds of failure a fetch can end in.
use vstd::prelude::*;

verus! {

/// A failed round trip, or a body that could not be read into the expected shape.
#[derive(Debug, Clone, Copy, PartialEq, Eq, Structural)]
pub enum RusjiError {
    /// The request could not be made or completed (URL, connection, timeout).
    RequestError,
    /// A body could not be serialised or parsed.
    SerializeError,
}

} // verus!
