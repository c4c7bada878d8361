//! The unified runtime error kind of the calling convention.

use vstd::prelude::*;

verus! {

/// Every runtime failure of the convention is reported as a value of this
/// kind to the caller of the dispatch or call operation — never by
/// terminating the hosting process — so a faulty peer degrades one
/// connection, not the service.
#[derive(Clone, Copy, Debug, PartialEq, Eq, Structural)]
pub enum RpcError {
    /// A value could not be encoded for the wire: the arguments do not fit
    /// the method's declared parameter types, or the implementation cannot
    /// produce an encodable reply for them.
    EncodingFailure,
    /// The expected value could not be decoded, including an unexpectedly
    /// terminated stream.
    DecodingFailure,
    /// The dispatcher received an ordinal outside the valid range.  The
    /// offending ordinal is carried along.
    UnknownSelector(u64),
}

} // verus!
