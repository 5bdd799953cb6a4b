//! An asynchronous completion bridge for a pointer-based transport.
//!
//! The transport reports the outcome of an operation either as an immediate
//! status code or as an opaque in-flight handle that is polled later. This
//! crate models the logic that adapts that completion style to a cooperative
//! suspension protocol: classifying raw handles, driving the poll-once /
//! register-waker / poll-again protocol of a request future, and managing the
//! lifecycle of a connection endpoint together with its flush barrier.
//!
//! The native transport itself (progress engine, wire protocol, symbol
//! bindings) is an external collaborator: its observations enter the library
//! as plain values, and the library's functions decide what happens next.

pub mod endpoint;
pub mod request;
pub mod status;

use vstd::prelude::*;

verus! {

/// A call the surrounding runtime must make into the native transport on
/// behalf of the library (the library itself performs no native calls).
#[derive(Clone, Copy, Debug, PartialEq, Eq, Structural)]
pub enum NativeAction {
    /// Release the in-flight request allocation behind the given handle.
    FreeRequest(u64),
    /// Tear down the native connection behind the given handle.
    DestroyEndpoint(u64),
}

} // verus!
