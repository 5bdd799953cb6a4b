//! Status codes and the sentinel-pointer convention of the native transport.
//!
//! The transport returns a pointer-sized value from every non-blocking call.
//! A small range at the top of the address space is reserved to encode an
//! immediate status without allocating a request: the null value means the
//! operation already completed successfully, values at or above
//! `ERR_SENTINEL_BASE` encode a (negative) error status, and everything in
//! between is a real in-flight request pointer. Any bridge to the native
//! layer must preserve this convention exactly.

use vstd::prelude::*;

verus! {

/// The status code for a successfully completed operation.
pub const STATUS_OK: i64 = 0;

/// The status code reported while an operation is still in progress.
pub const STATUS_INPROGRESS: i64 = 1;

/// The most negative status code the transport ever reports.
pub const STATUS_LAST: i64 = -100;

/// First pointer value of the reserved error-sentinel range: `2^64 - 100`,
/// the bit pattern of `STATUS_LAST` reinterpreted as an unsigned pointer.
pub const ERR_SENTINEL_BASE: u64 = 0xFFFF_FFFF_FFFF_FF9C;

/// What a pointer-sized return value of the transport stands for.
#[derive(Clone, Copy, Debug, PartialEq, Eq, Structural)]
pub enum HandleClass {
    /// The null value: the operation completed successfully inside the call;
    /// no request was allocated.
    ImmediateOk,
    /// A value in the reserved sentinel range: the operation failed
    /// immediately with the carried (negative) status; no request was
    /// allocated.
    ImmediateError(i64),
    /// Any other value: a live allocation tracking an in-flight operation.
    InFlight,
}

/// The classification of a raw pointer-sized transport return value.
pub open spec fn spec_classify(p: u64) -> HandleClass {
    if p == 0 {
        HandleClass::ImmediateOk
    } else if p >= ERR_SENTINEL_BASE {
        HandleClass::ImmediateError((p as int - 0x1_0000_0000_0000_0000) as i64)
    } else {
        HandleClass::InFlight
    }
}

/// Classifies a raw pointer-sized transport return value.
pub fn classify(p: u64) -> (c: HandleClass)
    ensures
        c == spec_classify(p),
{
    if p == 0 {
        HandleClass::ImmediateOk
    } else if p >= ERR_SENTINEL_BASE {
        let distance: u64 = u64::MAX - p;
        HandleClass::ImmediateError(-(distance as i64) - 1)
    } else {
        HandleClass::InFlight
    }
}

/// The pointer value that encodes a given immediate status.
pub open spec fn spec_encode_status(s: i64) -> u64
    recommends
        STATUS_LAST <= s <= STATUS_OK,
{
    if s == 0 {
        0u64
    } else {
        (s + 0x1_0000_0000_0000_0000) as u64
    }
}

/// Encodes an immediate status back into the sentinel-pointer range.
pub fn encode_status(s: i64) -> (p: u64)
    requires
        STATUS_LAST <= s <= STATUS_OK,
    ensures
        p == spec_encode_status(s),
{
    if s == 0 {
        0u64
    } else {
        let distance: u64 = (-s - 1) as u64;
        u64::MAX - distance
    }
}

/// The sentinel convention loses nothing: encoding an immediate status and
/// classifying the resulting pointer value recovers that status.
pub proof fn lemma_status_round_trip(s: i64)
    requires
        STATUS_LAST <= s <= STATUS_OK,
    ensures
        s == STATUS_OK ==> spec_classify(spec_encode_status(s)) == HandleClass::ImmediateOk,
        s < STATUS_OK ==> spec_classify(spec_encode_status(s)) == HandleClass::ImmediateError(s),
{
}

/// Encoded statuses never collide with in-flight request pointers.
pub proof fn lemma_sentinel_disjoint(s: i64)
    requires
        STATUS_LAST <= s <= STATUS_OK,
    ensures
        spec_classify(spec_encode_status(s)) != HandleClass::InFlight,
{
}

/// Whether a status code reports a failure.
pub fn is_error(s: i64) -> (r: bool)
    ensures
        r <==> s < 0,
{
    s < 0
}

} // verus!
