use std::rc::Rc;

use completion_bridge::NativeAction;
use completion_bridge::endpoint::Endpoint;
use completion_bridge::endpoint::FlushBeginAction;
use completion_bridge::endpoint::RemoteAddr;
use completion_bridge::endpoint::Worker;
use completion_bridge::endpoint::connect_params;
use completion_bridge::request::Completion;
use completion_bridge::request::Phase;
use completion_bridge::request::PollStep;
use completion_bridge::request::RequestFuture;
use completion_bridge::request::poll_normal;
use completion_bridge::status::ERR_SENTINEL_BASE;
use completion_bridge::status::HandleClass;
use completion_bridge::status::STATUS_INPROGRESS;
use completion_bridge::status::STATUS_OK;
use completion_bridge::status::classify;
use completion_bridge::status::encode_status;
use completion_bridge::status::is_error;

const STATUS_IO_ERROR: i64 = -3;

fn test_worker() -> Rc<Worker> {
    Rc::new(Worker { handle: 0xA11C })
}

fn fresh_endpoint() -> Endpoint {
    Endpoint::new(test_worker(), 0xE9, STATUS_OK)
}

#[test]
fn classify_null_is_immediate_ok() {
    assert_eq!(classify(0), HandleClass::ImmediateOk);
}

#[test]
fn classify_ordinary_pointers_are_in_flight() {
    assert_eq!(classify(1), HandleClass::InFlight);
    assert_eq!(classify(0x7FFF_AB40), HandleClass::InFlight);
    assert_eq!(classify(ERR_SENTINEL_BASE - 1), HandleClass::InFlight);
}

#[test]
fn classify_sentinel_range_is_immediate_error() {
    assert_eq!(classify(ERR_SENTINEL_BASE), HandleClass::ImmediateError(-100));
    assert_eq!(classify(u64::MAX), HandleClass::ImmediateError(-1));
    assert_eq!(classify(u64::MAX - 2), HandleClass::ImmediateError(-3));
}

#[test]
fn status_encoding_round_trips() {
    assert_eq!(encode_status(STATUS_OK), 0);
    assert_eq!(encode_status(-1), u64::MAX);
    assert_eq!(encode_status(-100), ERR_SENTINEL_BASE);
    assert_eq!(classify(encode_status(STATUS_OK)), HandleClass::ImmediateOk);
    assert_eq!(classify(encode_status(-42)), HandleClass::ImmediateError(-42));
    assert_eq!(classify(encode_status(-100)), HandleClass::ImmediateError(-100));
}

#[test]
fn error_statuses_are_negative() {
    assert!(is_error(-5));
    assert!(!is_error(STATUS_OK));
    assert!(!is_error(STATUS_INPROGRESS));
}

#[test]
fn poller_distinguishes_pending_from_terminal() {
    assert_eq!(poll_normal(STATUS_INPROGRESS), Completion::Pending);
    assert_eq!(poll_normal(STATUS_OK), Completion::Done(0));
    assert_eq!(poll_normal(STATUS_IO_ERROR), Completion::Done(STATUS_IO_ERROR));
}

#[test]
fn immediate_completion_resolves_without_waker() {
    let mut fut = RequestFuture::new(0x1000);
    let step = fut.poll_initial(STATUS_OK);
    assert_eq!(step, PollStep::Complete(0));
    assert_eq!(fut.phase, Phase::Resolved);
    assert_eq!(fut.waker, None);
}

#[test]
fn failure_is_forwarded_not_swallowed() {
    let mut fut = RequestFuture::new(0x1000);
    let step = fut.poll_initial(STATUS_IO_ERROR);
    assert_eq!(step, PollStep::Complete(STATUS_IO_ERROR));
    assert_eq!(fut.phase, Phase::Resolved);
}

#[test]
fn pending_poll_registers_then_suspends() {
    let mut fut = RequestFuture::new(0x2000);
    assert_eq!(fut.poll_initial(STATUS_INPROGRESS), PollStep::MustRegister);
    fut.register_waker(7);
    assert_eq!(fut.poll_recheck(STATUS_INPROGRESS), PollStep::Suspend);
    assert_eq!(fut.waker, Some(7));
    assert_eq!(fut.phase, Phase::Idle);
}

#[test]
fn completion_between_query_and_registration_is_caught() {
    let mut fut = RequestFuture::new(0x2000);
    assert_eq!(fut.poll_initial(STATUS_INPROGRESS), PollStep::MustRegister);
    fut.register_waker(9);
    // The operation completed in the window between the first query and
    // the registration: the mandatory re-query observes it.
    assert_eq!(fut.poll_recheck(STATUS_OK), PollStep::Complete(0));
    assert_eq!(fut.phase, Phase::Resolved);
}

#[test]
fn registered_waker_is_woken_and_next_poll_resolves() {
    let mut fut = RequestFuture::new(0x3000);
    assert_eq!(fut.poll_initial(STATUS_INPROGRESS), PollStep::MustRegister);
    fut.register_waker(5);
    assert_eq!(fut.poll_recheck(STATUS_INPROGRESS), PollStep::Suspend);
    // The progress engine completes the operation and wakes whatever the
    // slot holds: the waker of the suspended poll.
    assert_eq!(fut.waker, Some(5));
    // The woken task polls again and observes the terminal status.
    assert_eq!(fut.poll_initial(STATUS_OK), PollStep::Complete(0));
    assert_eq!(fut.phase, Phase::Resolved);
}

#[test]
fn last_registration_wins() {
    let mut fut = RequestFuture::new(0x4000);
    assert_eq!(fut.poll_initial(STATUS_INPROGRESS), PollStep::MustRegister);
    fut.register_waker(1);
    assert_eq!(fut.poll_recheck(STATUS_INPROGRESS), PollStep::Suspend);
    // The task migrates; a second poll registers a different waker.
    assert_eq!(fut.poll_initial(STATUS_INPROGRESS), PollStep::MustRegister);
    fut.register_waker(2);
    assert_eq!(fut.poll_recheck(STATUS_INPROGRESS), PollStep::Suspend);
    // Only the most recent registration is honored.
    assert_eq!(fut.waker, Some(2));
}

#[test]
fn release_frees_the_handle_exactly_once() {
    // Dropped immediately after creation, never polled.
    let mut fut = RequestFuture::new(0x5000);
    assert_eq!(fut.release(), NativeAction::FreeRequest(0x5000));
    assert!(fut.released);

    // Polled to resolution first, then dropped: same single release.
    let mut fut = RequestFuture::new(0x6000);
    assert_eq!(fut.poll_initial(STATUS_OK), PollStep::Complete(0));
    assert_eq!(fut.release(), NativeAction::FreeRequest(0x6000));
    assert!(fut.released);

    // Dropped while pending: the release does not depend on resolution.
    let mut fut = RequestFuture::new(0x7000);
    assert_eq!(fut.poll_initial(STATUS_INPROGRESS), PollStep::MustRegister);
    fut.register_waker(3);
    assert_eq!(fut.poll_recheck(STATUS_INPROGRESS), PollStep::Suspend);
    assert_eq!(fut.release(), NativeAction::FreeRequest(0x7000));
    assert!(fut.released);
}

#[test]
fn connect_params_select_client_server_over_plain_sockets() {
    let addr = RemoteAddr::V4 { octets: [127, 0, 0, 1], port: 10301 };
    let params = connect_params(addr);
    // Exactly the flags field (bit 5) and the socket-address field (bit 4)
    // are marked as set.
    assert_eq!(params.field_mask, 48);
    assert_eq!(params.flags, 1);
    assert_eq!(params.err_mode, 0);
    assert_eq!(params.remote, addr);
}

#[test]
fn connect_params_carry_ipv6_addresses() {
    let addr = RemoteAddr::V6 { octets: [0; 16], port: 443 };
    let params = connect_params(addr);
    assert_eq!(params.remote, addr);
    assert_eq!(params.field_mask, 48);
}

#[test]
fn endpoint_exposes_its_worker() {
    let worker = test_worker();
    let ep = Endpoint::new(Rc::clone(&worker), 0xE9, STATUS_OK);
    assert!(Rc::ptr_eq(ep.worker(), &worker));
    assert_eq!(ep.worker().handle, 0xA11C);
}

#[test]
fn create_destroy_round_trip_polls_nothing() {
    let ep = fresh_endpoint();
    assert_eq!(ep.ops_initiated, 0);
    assert!(ep.ops_completed.is_empty());
    // A flush over the empty barrier is ready without a single
    // operation-completion observation.
    assert!(ep.flush_ready(0));
    assert_eq!(ep.destroy(), NativeAction::DestroyEndpoint(0xE9));
}

#[test]
fn flush_waits_for_every_covered_operation() {
    let mut ep = fresh_endpoint();
    let a = ep.initiate_op();
    let b = ep.initiate_op();
    assert_eq!((a, b), (0, 1));
    let barrier = ep.flush_barrier();
    assert_eq!(barrier, 2);
    assert!(!ep.flush_ready(barrier));
    ep.complete_op(a);
    assert!(!ep.flush_ready(barrier));
    ep.complete_op(b);
    assert!(ep.flush_ready(barrier));
}

#[test]
fn flush_barrier_publishes_prior_writes() {
    let mut ep = fresh_endpoint();
    // Operation A writes to remote memory.
    let a = ep.initiate_op();
    let barrier = ep.flush_barrier();
    ep.complete_op(a);
    // The blocking flush returns exactly when its poller reports ready ...
    assert!(ep.flush_ready(barrier));
    // ... and then A's effect is remote-visible: a read issued now
    // observes the write.
    assert!(ep.ops_completed[a as usize]);
}

#[test]
fn flush_does_not_cover_later_operations() {
    let mut ep = fresh_endpoint();
    let a = ep.initiate_op();
    let barrier = ep.flush_barrier();
    // An operation initiated after the flush is outside the barrier.
    let b = ep.initiate_op();
    ep.complete_op(a);
    assert!(ep.flush_ready(barrier));
    assert!(!ep.ops_completed[b as usize]);
}

#[test]
fn fire_and_forget_flush_returns_at_once() {
    let ep = fresh_endpoint();
    // Completed synchronously inside the call: no request was allocated,
    // nothing to release, and the call still returned normally.
    assert_eq!(ep.flush_begin(0), FlushBeginAction::NoTracking);
    // Failed synchronously: the outcome is discarded by design.
    assert_eq!(ep.flush_begin(u64::MAX), FlushBeginAction::NoTracking);
    // In flight: the completion callback owns the single release.
    assert_eq!(ep.flush_begin(0x2000), FlushBeginAction::CallbackWillRelease(0x2000));
}

#[test]
fn destroy_is_unconditional() {
    let mut ep = fresh_endpoint();
    let _ = ep.initiate_op();
    // Teardown neither checks nor waits for the outstanding operation.
    assert_eq!(ep.destroy(), NativeAction::DestroyEndpoint(0xE9));
}
