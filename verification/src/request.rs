//! The request future: a suspension primitive around one in-flight native
//! request handle.
//!
//! A request future owns exactly one in-flight handle and drives the
//! poll-once / register-waker / poll-again protocol. Every native
//! observation (the raw status the transport reports for the handle) enters
//! through a parameter, and every transition is an exec method whose effect
//! equals the spec-level step relation [`event_step`]. Lemmas over traces of
//! that relation establish the protocol's safety properties: the native
//! release happens at most once and exactly once on every finished
//! lifecycle, a resolved future is never queried again, a poll that
//! suspends always leaves the current waker registered, and the most
//! recently registered waker is the one a completion wakes.

use vstd::prelude::*;

use crate::NativeAction;
use crate::status::HandleClass;
use crate::status::STATUS_INPROGRESS;
use crate::status::spec_classify;

verus! {

/// The ternary completion state a poller extracts from a raw status.
#[derive(Clone, Copy, Debug, PartialEq, Eq, Structural)]
pub enum Completion {
    /// The operation has not completed yet.
    Pending,
    /// The operation completed with the carried final status (zero for
    /// success, negative for failure-with-reason).
    Done(i64),
}

/// The completion state a raw status stands for: anything other than the
/// in-progress code is terminal, and the final status is forwarded to the
/// caller rather than inspected here.
pub open spec fn spec_poll_normal(raw: i64) -> Completion {
    if raw == STATUS_INPROGRESS {
        Completion::Pending
    } else {
        Completion::Done(raw)
    }
}

/// The completion poller for operations without a payload: classifies the
/// raw status the transport reports for a request handle.
pub fn poll_normal(raw: i64) -> (c: Completion)
    ensures
        c == spec_poll_normal(raw),
{
    if raw == STATUS_INPROGRESS {
        Completion::Pending
    } else {
        Completion::Done(raw)
    }
}

/// Where a request future stands in the poll protocol.
#[derive(Clone, Copy, Debug, PartialEq, Eq, Structural)]
pub enum Phase {
    /// Between polls: the next step is a first query of the poller.
    Idle,
    /// A first query observed pending: a waker must be registered before
    /// anything else happens.
    NeedWaker,
    /// A waker was just registered: the poller must be queried once more
    /// before the poll may suspend, to close the race with a completion
    /// that landed between the first query and the registration.
    Recheck,
    /// The future yielded its result; the native handle is never queried
    /// again.
    Resolved,
}

/// What a protocol step tells the polling context to do next.
#[derive(Clone, Copy, Debug, PartialEq, Eq, Structural)]
pub enum PollStep {
    /// The operation is done with the carried final status: yield it.
    Complete(i64),
    /// The operation is pending: register the current task's waker, then
    /// query once more.
    MustRegister,
    /// Still pending after the re-query: suspend; the registered waker
    /// will be invoked on completion.
    Suspend,
}

/// A suspension primitive owning one in-flight native request handle.
pub struct RequestFuture {
    /// The native request handle; always a real in-flight allocation,
    /// never a sentinel value.
    pub ptr: u64,
    /// Where the future stands in the poll protocol.
    pub phase: Phase,
    /// The waker slot of the request: the most recently registered task
    /// wakeup reference, identified by a plain token.
    pub waker: Option<u64>,
    /// Whether the native handle has been released back to the transport.
    pub released: bool,
}

/// One observable event in the lifecycle of a request future.
pub enum Event {
    /// A first poller query with the given raw status.
    PollInitial { raw: i64 },
    /// Registration of a task's waker token.
    RegisterWaker { w: u64 },
    /// The re-query after a registration, with the given raw status.
    PollRecheck { raw: i64 },
    /// Release of the native handle (the drop path).
    Release,
}

/// Whether an event may happen in a given state. These are exactly the
/// preconditions of the exec methods: queries follow the phase discipline,
/// and nothing at all may happen after the handle was released.
pub open spec fn event_allowed(s: RequestFuture, e: Event) -> bool {
    match e {
        Event::PollInitial { raw } => s.phase == Phase::Idle && !s.released,
        Event::RegisterWaker { w } => s.phase == Phase::NeedWaker && !s.released,
        Event::PollRecheck { raw } => s.phase == Phase::Recheck && !s.released,
        Event::Release => !s.released,
    }
}

/// The state after an event.
pub open spec fn event_step(s: RequestFuture, e: Event) -> RequestFuture {
    match e {
        Event::PollInitial { raw } => if spec_poll_normal(raw) is Pending {
            RequestFuture { phase: Phase::NeedWaker, ..s }
        } else {
            RequestFuture { phase: Phase::Resolved, ..s }
        },
        Event::RegisterWaker { w } => RequestFuture { phase: Phase::Recheck, waker: Some(w), ..s },
        Event::PollRecheck { raw } => if spec_poll_normal(raw) is Pending {
            RequestFuture { phase: Phase::Idle, ..s }
        } else {
            RequestFuture { phase: Phase::Resolved, ..s }
        },
        Event::Release => RequestFuture { released: true, ..s },
    }
}

/// The state after a whole trace of events.
pub open spec fn run(s: RequestFuture, tr: Seq<Event>) -> RequestFuture
    decreases tr.len(),
{
    if tr.len() == 0 {
        s
    } else {
        run(event_step(s, tr[0]), tr.drop_first())
    }
}

/// Whether every event of a trace is allowed in the state it meets.
pub open spec fn valid_from(s: RequestFuture, tr: Seq<Event>) -> bool
    decreases tr.len(),
{
    tr.len() == 0 || (event_allowed(s, tr[0]) && valid_from(event_step(s, tr[0]), tr.drop_first()))
}

/// How many events of a trace release the native handle.
pub open spec fn release_count(tr: Seq<Event>) -> nat
    decreases tr.len(),
{
    if tr.len() == 0 {
        0
    } else {
        (if tr[0] is Release {
            1nat
        } else {
            0nat
        }) + release_count(tr.drop_first())
    }
}

/// How many events of a trace query the native handle's completion state.
pub open spec fn query_count(tr: Seq<Event>) -> nat
    decreases tr.len(),
{
    if tr.len() == 0 {
        0
    } else {
        (match tr[0] {
            Event::PollInitial { raw } => 1nat,
            Event::PollRecheck { raw } => 1nat,
            _ => 0nat,
        }) + query_count(tr.drop_first())
    }
}

/// The wakeup reference the progress engine invokes when the operation
/// behind the request completes: whatever the waker slot holds then.
pub open spec fn wake_target(s: RequestFuture) -> Option<u64> {
    s.waker
}

/// The instruction a first query yields for a given raw status.
pub open spec fn initial_result(raw: i64) -> PollStep {
    match spec_poll_normal(raw) {
        Completion::Pending => PollStep::MustRegister,
        Completion::Done(st) => PollStep::Complete(st),
    }
}

/// The instruction the re-query yields for a given raw status.
pub open spec fn recheck_result(raw: i64) -> PollStep {
    match spec_poll_normal(raw) {
        Completion::Pending => PollStep::Suspend,
        Completion::Done(st) => PollStep::Complete(st),
    }
}

impl RequestFuture {
    /// Wraps a freshly returned in-flight request handle. The handle must
    /// be a real allocation: sentinel values carry an immediate status and
    /// never become a future.
    pub fn new(ptr: u64) -> (f: RequestFuture)
        requires
            spec_classify(ptr) == HandleClass::InFlight,
        ensures
            f == (RequestFuture { ptr, phase: Phase::Idle, waker: None, released: false }),
    {
        RequestFuture { ptr, phase: Phase::Idle, waker: None, released: false }
    }

    /// The first poller query of a poll. On a terminal observation the
    /// future resolves at once, without touching the waker slot; on a
    /// pending one the protocol demands a waker registration next.
    pub fn poll_initial(&mut self, raw: i64) -> (r: PollStep)
        requires
            old(self).phase == Phase::Idle,
            !old(self).released,
        ensures
            *final(self) == event_step(*old(self), (Event::PollInitial { raw })),
            r == initial_result(raw),
            final(self).waker == old(self).waker,
    {
        match poll_normal(raw) {
            Completion::Done(st) => {
                self.phase = Phase::Resolved;
                PollStep::Complete(st)
            },
            Completion::Pending => {
                self.phase = Phase::NeedWaker;
                PollStep::MustRegister
            },
        }
    }

    /// Installs the current task's waker into the request's waker slot,
    /// overwriting whatever an earlier poll left there: only the most
    /// recent registration is honored.
    pub fn register_waker(&mut self, w: u64)
        requires
            old(self).phase == Phase::NeedWaker,
            !old(self).released,
        ensures
            *final(self) == event_step(*old(self), (Event::RegisterWaker { w })),
            final(self).waker == Some(w),
            final(self).phase == Phase::Recheck,
    {
        self.waker = Some(w);
        self.phase = Phase::Recheck;
    }

    /// The re-query after a registration. A completion that landed between
    /// the first query and the registration is caught here, so it can
    /// never be missed; only a still-pending observation lets the poll
    /// suspend.
    pub fn poll_recheck(&mut self, raw: i64) -> (r: PollStep)
        requires
            old(self).phase == Phase::Recheck,
            !old(self).released,
        ensures
            *final(self) == event_step(*old(self), (Event::PollRecheck { raw })),
            r == recheck_result(raw),
            final(self).waker == old(self).waker,
            r is Suspend ==> final(self).phase == Phase::Idle && wake_target(*final(self))
                == old(self).waker,
    {
        match poll_normal(raw) {
            Completion::Done(st) => {
                self.phase = Phase::Resolved;
                PollStep::Complete(st)
            },
            Completion::Pending => {
                self.phase = Phase::Idle;
                PollStep::Suspend
            },
        }
    }

    /// Releases the native handle back to the transport: the drop path,
    /// taken in every state exactly once, whether the future resolved, was
    /// still pending, or was never polled at all.
    pub fn release(&mut self) -> (a: NativeAction)
        requires
            !old(self).released,
        ensures
            *final(self) == event_step(*old(self), Event::Release),
            final(self).released,
            a == NativeAction::FreeRequest(old(self).ptr),
    {
        self.released = true;
        NativeAction::FreeRequest(self.ptr)
    }
}

/// Once the native handle was released, the lifecycle is over: no event at
/// all — not a poll, not a registration, and in particular not a second
/// release — is allowed any more, so a valid trace from a released state is
/// empty.
pub proof fn lemma_after_release_nothing(s: RequestFuture, tr: Seq<Event>)
    requires
        valid_from(s, tr),
        s.released,
    ensures
        tr.len() == 0,
{
    if tr.len() > 0 {
        assert(!event_allowed(s, tr[0]));
    }
}

/// No double-free, no leak: along every valid trace of a live future the
/// native handle is released at most once, and it has been released when —
/// and only when — exactly one release event occurred. A lifecycle that
/// ends (the future is dropped, in whatever state it reached) therefore
/// frees the handle exactly once.
pub proof fn lemma_release_exactly_once(s: RequestFuture, tr: Seq<Event>)
    requires
        valid_from(s, tr),
        !s.released,
    ensures
        release_count(tr) <= 1,
        run(s, tr).released <==> release_count(tr) == 1,
    decreases tr.len(),
{
    if tr.len() > 0 {
        let s1 = event_step(s, tr[0]);
        if tr[0] is Release {
            lemma_after_release_nothing(s1, tr.drop_first());
            assert(release_count(tr.drop_first()) == 0);
            assert(run(s1, tr.drop_first()) == s1);
            assert(s1.released);
        } else {
            assert(!s1.released);
            lemma_release_exactly_once(s1, tr.drop_first());
        }
    }
}

/// Idempotent terminal observation: once a future has resolved, no valid
/// trace ever queries the native handle again, and the future stays
/// resolved; the only event left is the single release of the drop path.
pub proof fn lemma_resolved_terminal(s: RequestFuture, tr: Seq<Event>)
    requires
        valid_from(s, tr),
        s.phase == Phase::Resolved,
    ensures
        query_count(tr) == 0,
        run(s, tr).phase == Phase::Resolved,
    decreases tr.len(),
{
    if tr.len() > 0 {
        assert(tr[0] is Release);
        lemma_resolved_terminal(event_step(s, tr[0]), tr.drop_first());
    }
}

/// How many steps of a trace move the future into the resolved phase.
pub open spec fn resolution_count(s: RequestFuture, tr: Seq<Event>) -> nat
    decreases tr.len(),
{
    if tr.len() == 0 {
        0
    } else {
        let s1 = event_step(s, tr[0]);
        (if s.phase != Phase::Resolved && s1.phase == Phase::Resolved {
            1nat
        } else {
            0nat
        }) + resolution_count(s1, tr.drop_first())
    }
}

/// At most one terminal transition ever occurs: the resolved phase is
/// absorbing, so a future yields its result at most once per creation.
pub proof fn lemma_at_most_one_resolution(s: RequestFuture, tr: Seq<Event>)
    requires
        valid_from(s, tr),
    ensures
        resolution_count(s, tr) <= 1,
    decreases tr.len(),
{
    if tr.len() > 0 {
        let s1 = event_step(s, tr[0]);
        if s.phase != Phase::Resolved && s1.phase == Phase::Resolved {
            lemma_resolved_terminal(s1, tr.drop_first());
            lemma_resolution_count_zero_when_resolved(s1, tr.drop_first());
        } else {
            lemma_at_most_one_resolution(s1, tr.drop_first());
        }
    }
}

/// From a resolved state no step resolves again.
pub proof fn lemma_resolution_count_zero_when_resolved(s: RequestFuture, tr: Seq<Event>)
    requires
        valid_from(s, tr),
        s.phase == Phase::Resolved,
    ensures
        resolution_count(s, tr) == 0,
    decreases tr.len(),
{
    if tr.len() > 0 {
        lemma_resolution_count_zero_when_resolved(event_step(s, tr[0]), tr.drop_first());
    }
}

/// No missed wakeup: a poll that observed pending, registered the task's
/// waker and still observed pending on the re-query leaves that waker in
/// the slot, so the completion — whenever the progress engine delivers it —
/// wakes exactly that task, and the next poll's first query then observes
/// the terminal status and resolves the future.
pub proof fn lemma_no_missed_wakeup(s: RequestFuture, w: u64, raw_a: i64, raw_b: i64, raw_done: i64)
    requires
        s.phase == Phase::Idle,
        !s.released,
        spec_poll_normal(raw_a) is Pending,
        spec_poll_normal(raw_b) is Pending,
        spec_poll_normal(raw_done) is Done,
    ensures
        ({
            let s1 = event_step(s, (Event::PollInitial { raw: raw_a }));
            let s2 = event_step(s1, (Event::RegisterWaker { w }));
            let s3 = event_step(s2, (Event::PollRecheck { raw: raw_b }));
            &&& event_allowed(s, (Event::PollInitial { raw: raw_a }))
            &&& event_allowed(s1, (Event::RegisterWaker { w }))
            &&& event_allowed(s2, (Event::PollRecheck { raw: raw_b }))
            &&& wake_target(s3) == Some(w)
            &&& event_allowed(s3, (Event::PollInitial { raw: raw_done }))
            &&& event_step(s3, (Event::PollInitial { raw: raw_done })).phase == Phase::Resolved
            &&& initial_result(raw_done) is Complete
        }),
{
}

/// Last-writer-wins registration: when two polls in sequence each observe
/// pending and register their own waker, only the second registration is
/// left in the slot, so only the most recent waker is woken on completion.
pub proof fn lemma_last_writer_wins(
    s: RequestFuture,
    w1: u64,
    w2: u64,
    raw_a: i64,
    raw_b: i64,
    raw_c: i64,
    raw_d: i64,
)
    requires
        s.phase == Phase::Idle,
        !s.released,
        spec_poll_normal(raw_a) is Pending,
        spec_poll_normal(raw_b) is Pending,
        spec_poll_normal(raw_c) is Pending,
        spec_poll_normal(raw_d) is Pending,
    ensures
        ({
            let tr = seq![
                Event::PollInitial { raw: raw_a },
                Event::RegisterWaker { w: w1 },
                Event::PollRecheck { raw: raw_b },
                Event::PollInitial { raw: raw_c },
                Event::RegisterWaker { w: w2 },
                Event::PollRecheck { raw: raw_d },
            ];
            &&& valid_from(s, tr)
            &&& wake_target(run(s, tr)) == Some(w2)
            &&& run(s, tr).phase == Phase::Idle
        }),
{
    let tr = seq![
        Event::PollInitial { raw: raw_a },
        Event::RegisterWaker { w: w1 },
        Event::PollRecheck { raw: raw_b },
        Event::PollInitial { raw: raw_c },
        Event::RegisterWaker { w: w2 },
        Event::PollRecheck { raw: raw_d },
    ];
    reveal_with_fuel(run, 8);
    reveal_with_fuel(valid_from, 8);
    assert(valid_from(s, tr));
    assert(wake_target(run(s, tr)) == Some(w2));
}

} // verus!
