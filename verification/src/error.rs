//! The error taxonomy of the library.

use vstd::prelude::*;

verus! {

/// Every failure a caller can see.
///
/// `IOError` covers file or stream access, `FormatError` an unrecognized
/// input format, `ParseError` malformed geometry, `EmptyMeshError` a source
/// with zero triangles, `ContextError` exhaustion of every rendering-context
/// strategy, and `EncodeError` image serialization failure.
#[derive(Clone, Copy, Debug, PartialEq, Eq, Structural)]
pub enum Error {
    IOError,
    FormatError,
    ParseError,
    EmptyMeshError,
    ContextError,
    EncodeError,
}

} // verus!
