//! The connection endpoint: one logical channel to a remote peer.
//!
//! An endpoint is created against a shared worker (the progress engine that
//! must be driven externally for anything to complete) and a remote socket
//! address, and owns one native connection handle. It tracks the operations
//! initiated on it so that a flush — the sole ordering and visibility
//! barrier — can be decided: a flush that covers a barrier is ready exactly
//! when every operation initiated before the barrier has completed. The
//! fire-and-forget flush never waits at all: it merely decides, from the
//! transport's immediate answer, who owns the release of the tracking
//! resource. Teardown is unconditional and waits for nothing.

use std::rc::Rc;

use vstd::prelude::*;

use crate::NativeAction;
use crate::status::HandleClass;
use crate::status::STATUS_OK;
use crate::status::spec_classify;

verus! {

/// The shared progress engine an endpoint is created against. Its event
/// loop is an external collaborator; the library only needs its identity
/// and keeps it alive through shared ownership for at least as long as the
/// endpoint exists.
#[derive(Clone, Copy, Debug, PartialEq, Eq, Structural)]
pub struct Worker {
    /// The native worker handle, opaque to the library.
    pub handle: u64,
}

/// A remote peer's socket address, held as plain values. The surrounding
/// runtime converts it to the platform-native binary layout at the moment
/// it hands the address to the transport.
#[derive(Clone, Copy, Debug, PartialEq, Eq)]
#[allow(inconsistent_fields)]
pub enum RemoteAddr {
    /// An IPv4 address and port.
    V4 { octets: [u8; 4], port: u16 },
    /// An IPv6 address and port.
    V6 { octets: [u8; 16], port: u16 },
}

/// Parameter-field bit marking the flags field as set.
pub const FIELD_FLAGS: u64 = 32;

/// Parameter-field bit marking the socket-address field as set.
pub const FIELD_SOCK_ADDR: u64 = 16;

/// Flag selecting client-server connection establishment.
pub const FLAG_CLIENT_SERVER: u64 = 1;

/// The error-handling mode installing no custom handler. Creation always
/// uses it: the transport takes this mode as the cue to pick the plain
/// stream-socket wire path.
pub const ERR_MODE_NONE: u64 = 0;

/// The connection parameters handed to the transport when an endpoint is
/// created: which fields are set, the connection flags, the error-handling
/// mode, and the remote address.
#[derive(Clone, Copy, Debug, PartialEq, Eq)]
pub struct EndpointParams {
    /// Bit mask naming the parameter fields that carry a value.
    pub field_mask: u64,
    /// Connection-establishment flags.
    pub flags: u64,
    /// The error-handling mode of the connection.
    pub err_mode: u64,
    /// The remote peer's address.
    pub remote: RemoteAddr,
}

/// Builds the connection parameters for dialing a remote address: exactly
/// the flags and socket-address fields are marked set, establishment is
/// client-server, and the error-handling mode installs no handler.
pub fn connect_params(addr: RemoteAddr) -> (p: EndpointParams)
    ensures
        p.field_mask == FIELD_FLAGS | FIELD_SOCK_ADDR,
        p.flags == FLAG_CLIENT_SERVER,
        p.err_mode == ERR_MODE_NONE,
        p.remote == addr,
{
    EndpointParams {
        field_mask: FIELD_FLAGS | FIELD_SOCK_ADDR,
        flags: FLAG_CLIENT_SERVER,
        err_mode: ERR_MODE_NONE,
        remote: addr,
    }
}

/// Who must release the tracking resource of a fire-and-forget flush.
#[derive(Clone, Copy, Debug, PartialEq, Eq, Structural)]
pub enum FlushBeginAction {
    /// The flush completed inside the initiating call; no request was
    /// allocated, so there is nothing to release and nothing may be
    /// released later.
    NoTracking,
    /// The flush is in flight behind the carried request handle; the
    /// completion callback owns its release and will free it exactly once,
    /// whenever the completion fires.
    CallbackWillRelease(u64),
}

/// One logical connection to a remote peer.
pub struct Endpoint {
    /// The native connection handle, opaque to the library.
    pub handle: u64,
    /// Shared ownership of the progress engine, so it outlives the
    /// endpoint and every operation initiated on it.
    pub worker: Rc<Worker>,
    /// How many operations were initiated on this endpoint; they are
    /// numbered from zero in initiation order.
    pub ops_initiated: u64,
    /// For each initiated operation, whether the progress engine has
    /// reported it complete (and thereby visible at the remote side).
    pub ops_completed: Vec<bool>,
}

impl Endpoint {
    /// One completion slot per initiated operation.
    pub open spec fn wf(self) -> bool {
        self.ops_completed@.len() == self.ops_initiated
    }

    /// Whether every operation initiated before the barrier has completed:
    /// the readiness condition of a flush covering that barrier.
    pub open spec fn spec_flush_ready(self, barrier: u64) -> bool {
        forall|i: int| 0 <= i < barrier ==> self.ops_completed@[i]
    }

    /// Wraps a freshly created native connection. The status is the
    /// transport's answer to the creation call; anything but success is
    /// fatal to the caller and never reaches an endpoint value.
    pub fn new(worker: Rc<Worker>, handle: u64, status: i64) -> (ep: Endpoint)
        requires
            status == STATUS_OK,
        ensures
            ep.handle == handle,
            ep.worker == worker,
            ep.ops_initiated == 0,
            ep.ops_completed@ =~= Seq::<bool>::empty(),
            ep.wf(),
    {
        Endpoint { handle, worker, ops_initiated: 0, ops_completed: Vec::new() }
    }

    /// The shared progress engine this endpoint was created against.
    pub fn worker(&self) -> (w: &Rc<Worker>)
        ensures
            *w == self.worker,
    {
        &self.worker
    }

    /// Records one newly initiated operation and returns its number.
    pub fn initiate_op(&mut self) -> (id: u64)
        requires
            old(self).wf(),
            old(self).ops_initiated < u64::MAX,
        ensures
            final(self).wf(),
            id == old(self).ops_initiated,
            final(self).ops_initiated == old(self).ops_initiated + 1,
            final(self).ops_completed@ =~= old(self).ops_completed@.push(false),
            final(self).handle == old(self).handle,
            final(self).worker == old(self).worker,
    {
        let id = self.ops_initiated;
        self.ops_completed.push(false);
        self.ops_initiated = self.ops_initiated + 1;
        id
    }

    /// Records that the progress engine reported the given operation
    /// complete.
    pub fn complete_op(&mut self, id: u64)
        requires
            old(self).wf(),
            id < old(self).ops_initiated,
        ensures
            final(self).wf(),
            final(self).ops_completed@ =~= old(self).ops_completed@.update(id as int, true),
            final(self).ops_initiated == old(self).ops_initiated,
            final(self).handle == old(self).handle,
            final(self).worker == old(self).worker,
    {
        let n: usize = self.ops_completed.len();
        assert(id < n as u64);
        self.ops_completed.set(id as usize, true);
    }

    /// The barrier a flush initiated now covers: every operation initiated
    /// before this call.
    pub fn flush_barrier(&self) -> (b: u64)
        ensures
            b == self.ops_initiated,
    {
        self.ops_initiated
    }

    /// The flush's own completion poller: whether every operation the
    /// barrier covers has completed. The blocking flush returns exactly
    /// when this first reports true, after which every covered write is
    /// visible at the remote side.
    pub fn flush_ready(&self, barrier: u64) -> (r: bool)
        requires
            self.wf(),
            barrier <= self.ops_initiated,
        ensures
            r <==> self.spec_flush_ready(barrier),
    {
        let n: usize = self.ops_completed.len();
        assert(barrier <= n as u64);
        let end: usize = barrier as usize;
        let mut i: usize = 0;
        while i < end
            invariant
                self.wf(),
                end == barrier,
                end <= self.ops_completed.len(),
                i <= end,
                forall|j: int| 0 <= j < i ==> self.ops_completed@[j],
            decreases end - i,
        {
            if !self.ops_completed[i] {
                return false;
            }
            i = i + 1;
        }
        true
    }

    /// The release decision of the fire-and-forget flush for a given
    /// transport answer.
    pub open spec fn spec_flush_begin(status_ptr: u64) -> FlushBeginAction {
        if spec_classify(status_ptr) is InFlight {
            FlushBeginAction::CallbackWillRelease(status_ptr)
        } else {
            FlushBeginAction::NoTracking
        }
    }

    /// Initiates a flush without ever awaiting it. The argument is the
    /// transport's immediate answer to the initiation; whatever it is —
    /// completed inline, failed inline, or in flight — this decides in one
    /// straight-line step who releases the tracking resource, discards the
    /// outcome, and returns. It never waits and never panics.
    pub fn flush_begin(&self, status_ptr: u64) -> (a: FlushBeginAction)
        ensures
            a == Endpoint::spec_flush_begin(status_ptr),
            (a is CallbackWillRelease) <==> spec_classify(status_ptr) == HandleClass::InFlight,
    {
        match crate::status::classify(status_ptr) {
            HandleClass::InFlight => FlushBeginAction::CallbackWillRelease(status_ptr),
            HandleClass::ImmediateOk => FlushBeginAction::NoTracking,
            HandleClass::ImmediateError(_) => FlushBeginAction::NoTracking,
        }
    }

    /// Tears the native connection down, unconditionally: destruction
    /// neither checks nor waits for outstanding operations.
    pub fn destroy(self) -> (a: NativeAction)
        ensures
            a == NativeAction::DestroyEndpoint(self.handle),
    {
        NativeAction::DestroyEndpoint(self.handle)
    }
}

/// The flush barrier orders and publishes: when a flush covering a barrier
/// is ready, every operation initiated before the barrier — in particular a
/// remote-memory write initiated before the flush — has completed and is
/// visible, so a read issued after the flush returns observes its effect.
pub proof fn lemma_flush_barrier(ep: Endpoint, barrier: u64, op: u64)
    requires
        ep.wf(),
        barrier <= ep.ops_initiated,
        ep.spec_flush_ready(barrier),
        op < barrier,
    ensures
        ep.ops_completed@[op as int],
{
}

/// Creating an endpoint and immediately destroying it is a complete round
/// trip: the fresh endpoint has no operations, its flush barrier is
/// trivially ready without a single operation-completion observation, and
/// destruction yields the native teardown of exactly the created handle.
pub proof fn lemma_create_destroy_round_trip(ep: Endpoint)
    requires
        ep.wf(),
        ep.ops_initiated == 0,
    ensures
        ep.spec_flush_ready(0),
        ep.ops_completed@ =~= Seq::<bool>::empty(),
{
}

} // verus!
