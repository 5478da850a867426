use libsyncify::config::UserData;
use libsyncify::error::{BindFailure, Shutdown, StreamRejected, SyncifyError};
use libsyncify::identity::SecretKey;
use libsyncify::node::{Dispatch, ProtocolIds};
use libsyncify::router::{
    Action, BindOutcome, Event, Machine, Protocol, RouterState, CONNECT_DEADLINE_SECS, GRACE_SECS,
    PUBLISH_DEADLINE_SECS,
};
use libsyncify::{Syncify, SyncifyConfig};

fn ids() -> ProtocolIds {
    ProtocolIds {
        blobs: b"/iroh-bytes/4".to_vec(),
        gossip: b"/iroh-gossip/0".to_vec(),
        docs: b"/iroh-sync/1".to_vec(),
    }
}

fn node() -> Syncify {
    let config = SyncifyConfig {
        secret_key: SecretKey::from_bytes([5u8; 32]),
        user_data: UserData::new("desk").expect("label"),
        shares: vec![],
    };
    Syncify::new(config, ids())
}

fn ready_node() -> Syncify {
    let mut n = node();
    assert_eq!(n.on_event(Event::BindFinished(BindOutcome::Bound)), Action::StartHandler(Protocol::Blobs));
    assert_eq!(n.on_event(Event::HandlerStarted(Protocol::Blobs)), Action::StartHandler(Protocol::Gossip));
    assert_eq!(n.on_event(Event::HandlerStarted(Protocol::Gossip)), Action::StartHandler(Protocol::Docs));
    assert_eq!(n.on_event(Event::HandlerStarted(Protocol::Docs)), Action::Spawn);
    assert_eq!(n.on_event(Event::Spawned), Action::Serve);
    n
}

#[test]
fn new_node_is_building_and_keeps_its_config() {
    let n = node();
    assert_eq!(n.state(), RouterState::Building);
    assert!(!n.degraded());
    assert_eq!(n.config().secret_key.to_bytes(), [5u8; 32]);
    assert_eq!(n.config().user_data.as_str(), "desk");
}

#[test]
fn alpns_are_blobs_gossip_docs() {
    assert_eq!(
        node().alpns(),
        vec![b"/iroh-bytes/4".to_vec(), b"/iroh-gossip/0".to_vec(), b"/iroh-sync/1".to_vec()]
    );
}

#[test]
fn ready_only_after_all_three_handlers() {
    let mut n = node();
    assert_eq!(n.on_event(Event::Spawned), Action::Ignored);
    n.on_event(Event::BindFinished(BindOutcome::Bound));
    assert_eq!(n.on_event(Event::Spawned), Action::Ignored);
    n.on_event(Event::HandlerStarted(Protocol::Blobs));
    assert_eq!(n.on_event(Event::Spawned), Action::Ignored);
    n.on_event(Event::HandlerStarted(Protocol::Gossip));
    assert_eq!(n.on_event(Event::Spawned), Action::Ignored);
    assert_eq!(n.state(), RouterState::Building);
    n.on_event(Event::HandlerStarted(Protocol::Docs));
    assert_eq!(n.on_event(Event::Spawned), Action::Serve);
    assert_eq!(n.state(), RouterState::Ready);
}

#[test]
fn docs_cannot_start_first() {
    let mut m = Machine::new();
    m.step(Event::BindFinished(BindOutcome::Bound));
    assert_eq!(m.step(Event::HandlerStarted(Protocol::Docs)), Action::Ignored);
    assert!(!m.docs);
    assert_eq!(m.step(Event::HandlerStarted(Protocol::Gossip)), Action::StartHandler(Protocol::Blobs));
    assert_eq!(m.step(Event::HandlerStarted(Protocol::Docs)), Action::Ignored);
    assert_eq!(m.step(Event::HandlerStarted(Protocol::Gossip)), Action::Ignored);
    assert_eq!(m.step(Event::HandlerStarted(Protocol::Blobs)), Action::StartHandler(Protocol::Docs));
    assert_eq!(m.step(Event::HandlerStarted(Protocol::Docs)), Action::Spawn);
}

#[test]
fn nothing_starts_before_the_endpoint_is_bound() {
    let mut m = Machine::new();
    assert_eq!(m.step(Event::HandlerStarted(Protocol::Blobs)), Action::Ignored);
    assert_eq!(m.step(Event::HandlerFailed(Protocol::Blobs)), Action::Ignored);
    assert_eq!(m.step(Event::EndpointLost), Action::Ignored);
    assert_eq!(m, Machine::new());
}

#[test]
fn failed_handler_rolls_back() {
    let mut n = node();
    n.on_event(Event::BindFinished(BindOutcome::Bound));
    n.on_event(Event::HandlerStarted(Protocol::Blobs));
    n.on_event(Event::HandlerStarted(Protocol::Gossip));
    assert_eq!(
        n.on_event(Event::HandlerFailed(Protocol::Docs)),
        Action::Release(SyncifyError::HandlerStartFailed)
    );
    assert_eq!(n.state(), RouterState::Failed(SyncifyError::HandlerStartFailed));
    assert_eq!(n.on_event(Event::Spawned), Action::Ignored);
    assert_eq!(n.on_event(Event::BindFinished(BindOutcome::Bound)), Action::Ignored);

    let mut m = Machine::new();
    m.step(Event::BindFinished(BindOutcome::Bound));
    m.step(Event::HandlerStarted(Protocol::Blobs));
    m.step(Event::HandlerFailed(Protocol::Gossip));
    assert!(!m.bound && !m.blobs && !m.gossip && !m.docs);
}

#[test]
fn bind_failures_are_fatal() {
    for (outcome, failure) in [
        (BindOutcome::AddressInUse, BindFailure::AddressInUse),
        (BindOutcome::PermissionDenied, BindFailure::PermissionDenied),
        (BindOutcome::Other, BindFailure::Other),
    ] {
        let mut n = node();
        assert_eq!(
            n.on_event(Event::BindFinished(outcome)),
            Action::Release(SyncifyError::BindFailed(failure))
        );
        assert_eq!(n.state(), RouterState::Failed(SyncifyError::BindFailed(failure)));
    }
}

#[test]
fn protocol_dispatch() {
    let mut a = ready_node();
    assert_eq!(a.dispatch(b"/iroh-bytes/4"), Dispatch::Handler(Protocol::Blobs));
    assert_eq!(a.dispatch(b"/iroh-gossip/0"), Dispatch::Handler(Protocol::Gossip));
    assert_eq!(a.dispatch(b"/iroh-sync/1"), Dispatch::Handler(Protocol::Docs));
    assert_eq!(a.dispatch(b"/not-registered/9"), Dispatch::Rejected(StreamRejected::UnknownProtocol));
    assert_eq!(a.dispatch(b""), Dispatch::Rejected(StreamRejected::UnknownProtocol));
    assert_eq!(a.dispatch(b"/iroh-bytes/"), Dispatch::Rejected(StreamRejected::UnknownProtocol));
    assert_eq!(a.state(), RouterState::Ready);
    assert_eq!(a.dispatch(b"/iroh-bytes/4"), Dispatch::Handler(Protocol::Blobs));
}

#[test]
fn no_stream_is_served_before_ready() {
    let mut n = node();
    assert_eq!(n.dispatch(b"/iroh-bytes/4"), Dispatch::Rejected(StreamRejected::HandlerBusy));
    assert_eq!(n.dispatch(b"/zzz"), Dispatch::Rejected(StreamRejected::UnknownProtocol));
    n.on_event(Event::BindFinished(BindOutcome::Bound));
    n.on_event(Event::HandlerStarted(Protocol::Blobs));
    assert_eq!(n.dispatch(b"/iroh-bytes/4"), Dispatch::Rejected(StreamRejected::HandlerBusy));
    assert_eq!(n.stream_errors(), 3);
    let mut r = ready_node();
    r.on_event(Event::ShutdownRequested);
    assert_eq!(r.dispatch(b"/iroh-gossip/0"), Dispatch::Rejected(StreamRejected::HandlerBusy));
}

#[test]
fn clean_shutdown() {
    let mut a = ready_node();
    assert_eq!(a.on_event(Event::ShutdownRequested), Action::Drain(5));
    assert_eq!(GRACE_SECS, 5);
    assert_eq!(a.state(), RouterState::Draining);
    assert_eq!(a.on_event(Event::Drained), Action::Finish(Shutdown::Clean));
    assert_eq!(a.state(), RouterState::Stopped);
    assert_eq!(a.on_event(Event::ShutdownRequested), Action::Ignored);
    assert_eq!(a.on_event(Event::GraceElapsed), Action::Ignored);
}

#[test]
fn shutdown_ends_when_the_grace_period_does() {
    let mut a = ready_node();
    assert_eq!(a.on_event(Event::GraceElapsed), Action::Ignored);
    a.on_event(Event::ShutdownRequested);
    assert_eq!(a.on_event(Event::GraceElapsed), Action::Finish(Shutdown::Timeout));
    assert_eq!(a.state(), RouterState::Stopped);
    assert_eq!(a.on_event(Event::Drained), Action::Ignored);
}

#[test]
fn discovery_degraded() {
    let mut n = node();
    assert_eq!(
        n.on_event(Event::BindFinished(BindOutcome::DiscoveryUnavailable)),
        Action::StartHandler(Protocol::Blobs)
    );
    assert!(n.degraded());
    n.on_event(Event::HandlerStarted(Protocol::Blobs));
    n.on_event(Event::HandlerStarted(Protocol::Gossip));
    n.on_event(Event::HandlerStarted(Protocol::Docs));
    assert_eq!(n.on_event(Event::Spawned), Action::Serve);
    assert_eq!(n.state(), RouterState::Ready);
    assert!(!ready_node().degraded());
}

#[test]
fn lost_endpoint_fails_the_router() {
    let mut a = ready_node();
    assert_eq!(a.on_event(Event::EndpointLost), Action::Release(SyncifyError::EndpointLost));
    assert_eq!(a.state(), RouterState::Failed(SyncifyError::EndpointLost));
    let mut b = ready_node();
    b.on_event(Event::ShutdownRequested);
    assert_eq!(b.on_event(Event::EndpointLost), Action::Release(SyncifyError::EndpointLost));
    assert_eq!(b.on_event(Event::Drained), Action::Ignored);
}

#[test]
fn the_endpoint_binds_once() {
    let mut n = node();
    n.on_event(Event::BindFinished(BindOutcome::Bound));
    assert_eq!(n.on_event(Event::BindFinished(BindOutcome::Bound)), Action::Ignored);
    assert_eq!(n.on_event(Event::BindFinished(BindOutcome::AddressInUse)), Action::Ignored);
    assert_eq!(n.state(), RouterState::Building);
}

#[test]
fn stream_errors_are_counted_and_never_fatal() {
    let mut a = ready_node();
    assert_eq!(a.stream_errors(), 0);
    assert_eq!(a.dispatch(b"/iroh-sync/1"), Dispatch::Handler(Protocol::Docs));
    assert_eq!(a.stream_errors(), 0);
    assert_eq!(a.dispatch(b"/nobody"), Dispatch::Rejected(StreamRejected::UnknownProtocol));
    assert_eq!(a.stream_errors(), 1);
    assert_eq!(a.on_event(Event::StreamFailed), Action::Serve);
    assert_eq!(a.stream_errors(), 2);
    assert_eq!(a.state(), RouterState::Ready);
    assert_eq!(a.dispatch(b"/iroh-bytes/4"), Dispatch::Handler(Protocol::Blobs));

    let mut b = node();
    assert_eq!(b.on_event(Event::StreamFailed), Action::Ignored);
    assert_eq!(b.stream_errors(), 0);
}

#[test]
fn deadlines_have_their_values() {
    assert_eq!(GRACE_SECS, 5);
    assert_eq!(CONNECT_DEADLINE_SECS, 30);
    assert_eq!(PUBLISH_DEADLINE_SECS, 10);
}

#[test]
fn advertised_identifiers_cover_the_handlers() {
    let n = node();
    assert!(n.advertises(&n.alpns()));
    assert!(n.advertises(&vec![
        b"/x".to_vec(),
        b"/iroh-sync/1".to_vec(),
        b"/iroh-gossip/0".to_vec(),
        b"/iroh-bytes/4".to_vec(),
    ]));
    assert!(!n.advertises(&vec![b"/iroh-bytes/4".to_vec(), b"/iroh-gossip/0".to_vec()]));
    assert!(!n.advertises(&vec![]));
}
