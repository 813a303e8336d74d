use media_pump::AdapterRequest;
use media_pump::ControlError;
use media_pump::EventKind;
use media_pump::InvokeOutcome;
use media_pump::MediaSourceHandle;
use media_pump::Player;
use media_pump::PlayerState;
use media_pump::classify;
use media_pump::play_music;
use media_pump::ME_ERROR;
use media_pump::ME_SESSION_CLOSED;
use media_pump::ME_SESSION_PAUSED;
use media_pump::ME_SESSION_STARTED;
use media_pump::ME_SESSION_STOPPED;
use media_pump::ME_SESSION_TOPOLOGY_SET;
use media_pump::ME_SESSION_TOPOLOGY_STATUS;

/// A stand-in for the platform session: it records every adapter call the
/// controller asks for, so the tests can assert how many event requests,
/// close requests and so on were actually issued.
struct MockAdapter {
    event_requests: u32,
    close_requests: u32,
    start_requests: u32,
    pause_requests: u32,
    stop_requests: u32,
    queued_topologies: Vec<u64>,
}

impl MockAdapter {
    fn new() -> MockAdapter {
        MockAdapter {
            event_requests: 0,
            close_requests: 0,
            start_requests: 0,
            pause_requests: 0,
            stop_requests: 0,
            queued_topologies: Vec::new(),
        }
    }

    fn perform(&mut self, req: AdapterRequest) {
        match req {
            AdapterRequest::RequestNextEvent => self.event_requests += 1,
            AdapterRequest::QueueTopology(h) => self.queued_topologies.push(h.token),
            AdapterRequest::Start => self.start_requests += 1,
            AdapterRequest::Pause => self.pause_requests += 1,
            AdapterRequest::Stop => self.stop_requests += 1,
            AdapterRequest::CloseSession => self.close_requests += 1,
        }
    }

    /// Deliver one raw event code to the controller, performing the re-arm
    /// request on the controller's behalf when it asks for one.
    fn deliver(&mut self, player: &mut Player, code: u32) -> InvokeOutcome {
        let outcome = player.invoke(Some(code));
        if outcome == InvokeOutcome::ReArmed {
            self.perform(AdapterRequest::RequestNextEvent);
        }
        outcome
    }
}

/// Construct a controller and perform its initial event request on the mock.
fn fresh(adapter: &mut MockAdapter) -> Player {
    let (player, req) = play_music();
    adapter.perform(req);
    player
}

/// Drive a fresh controller to a confirmed `Started` state.
fn started(adapter: &mut MockAdapter) -> Player {
    let mut player = fresh(adapter);
    let req = player
        .open(Some(MediaSourceHandle { token: 1 }))
        .expect("open from Ready must be accepted");
    adapter.perform(req);
    adapter.deliver(&mut player, ME_SESSION_TOPOLOGY_STATUS);
    let req = player.play().expect("play after opened must be accepted");
    adapter.perform(req);
    adapter.deliver(&mut player, ME_SESSION_STARTED);
    assert_eq!(player.current_state(), PlayerState::Started);
    player
}

#[test]
fn classify_known_codes() {
    assert_eq!(classify(ME_SESSION_CLOSED), EventKind::SessionClosed);
    assert_eq!(classify(ME_ERROR), EventKind::SessionError);
    assert_eq!(classify(ME_SESSION_TOPOLOGY_STATUS), EventKind::Opened);
    assert_eq!(classify(ME_SESSION_TOPOLOGY_SET), EventKind::TopologySet);
    assert_eq!(classify(ME_SESSION_STARTED), EventKind::StartedConfirmed);
    assert_eq!(classify(ME_SESSION_PAUSED), EventKind::PausedConfirmed);
    assert_eq!(classify(ME_SESSION_STOPPED), EventKind::StoppedConfirmed);
    assert_eq!(classify(0), EventKind::Unrecognized);
    assert_eq!(classify(9999), EventKind::Unrecognized);
}

#[test]
fn construction_issues_exactly_one_event_request() {
    let mut adapter = MockAdapter::new();
    let player = fresh(&mut adapter);
    assert_eq!(player.current_state(), PlayerState::Ready);
    assert_eq!(adapter.event_requests, 1);
}

#[test]
fn opened_before_open_leaves_ready() {
    // The adapter must not deliver an opened confirmation before open() was
    // called; if it does, no Ready -> OpenPending transition is invented:
    // the event is ignored, though the pump still re-arms.
    let mut adapter = MockAdapter::new();
    let mut player = fresh(&mut adapter);
    let outcome = adapter.deliver(&mut player, ME_SESSION_TOPOLOGY_STATUS);
    assert_eq!(outcome, InvokeOutcome::ReArmed);
    assert_eq!(player.current_state(), PlayerState::Ready);
    assert_eq!(adapter.event_requests, 2);
}

#[test]
fn started_confirmation_in_ready_is_ignored() {
    let mut adapter = MockAdapter::new();
    let mut player = fresh(&mut adapter);
    adapter.deliver(&mut player, ME_SESSION_STARTED);
    assert_eq!(player.current_state(), PlayerState::Ready);
}

#[test]
fn open_with_failed_resolution_reports_and_rolls_back() {
    let mut adapter = MockAdapter::new();
    let mut player = fresh(&mut adapter);
    let r = player.open(None);
    assert_eq!(r, Err(ControlError::ResolutionFailed));
    assert_eq!(player.current_state(), PlayerState::Ready);
}

#[test]
fn open_queues_topology_with_the_resolved_source() {
    let mut adapter = MockAdapter::new();
    let mut player = fresh(&mut adapter);
    let r = player.open(Some(MediaSourceHandle { token: 42 }));
    assert_eq!(
        r,
        Ok(AdapterRequest::QueueTopology(MediaSourceHandle { token: 42 }))
    );
    adapter.perform(r.unwrap());
    assert_eq!(player.current_state(), PlayerState::OpenPending);
    assert_eq!(adapter.queued_topologies, vec![42]);
}

#[test]
fn open_while_open_pending_is_rejected() {
    let mut adapter = MockAdapter::new();
    let mut player = fresh(&mut adapter);
    player
        .open(Some(MediaSourceHandle { token: 1 }))
        .expect("first open must be accepted");
    let r = player.open(Some(MediaSourceHandle { token: 2 }));
    assert_eq!(r, Err(ControlError::InvalidState));
    assert_eq!(player.current_state(), PlayerState::OpenPending);
}

#[test]
fn open_then_opened_then_play_then_started() {
    let mut adapter = MockAdapter::new();
    let mut player = fresh(&mut adapter);
    let req = player.open(Some(MediaSourceHandle { token: 3 })).unwrap();
    adapter.perform(req);
    adapter.deliver(&mut player, ME_SESSION_TOPOLOGY_STATUS);
    assert_eq!(player.current_state(), PlayerState::Stopped);
    let req = player.play().unwrap();
    assert_eq!(req, AdapterRequest::Start);
    adapter.perform(req);
    adapter.deliver(&mut player, ME_SESSION_STARTED);
    assert_eq!(player.current_state(), PlayerState::Started);
}

#[test]
fn play_before_open_is_rejected() {
    let mut adapter = MockAdapter::new();
    let mut player = fresh(&mut adapter);
    assert_eq!(player.play(), Err(ControlError::InvalidState));
    assert_eq!(player.current_state(), PlayerState::Ready);
}

#[test]
fn pause_and_stop_confirmations() {
    let mut adapter = MockAdapter::new();
    let mut player = started(&mut adapter);
    let req = player.pause().unwrap();
    assert_eq!(req, AdapterRequest::Pause);
    adapter.perform(req);
    adapter.deliver(&mut player, ME_SESSION_PAUSED);
    assert_eq!(player.current_state(), PlayerState::Paused);
    let req = player.stop().unwrap();
    assert_eq!(req, AdapterRequest::Stop);
    adapter.perform(req);
    adapter.deliver(&mut player, ME_SESSION_STOPPED);
    assert_eq!(player.current_state(), PlayerState::Stopped);
}

#[test]
fn pause_while_stopped_is_rejected() {
    let mut adapter = MockAdapter::new();
    let mut player = fresh(&mut adapter);
    let req = player.open(Some(MediaSourceHandle { token: 1 })).unwrap();
    adapter.perform(req);
    adapter.deliver(&mut player, ME_SESSION_TOPOLOGY_STATUS);
    assert_eq!(player.pause(), Err(ControlError::InvalidState));
    assert_eq!(player.current_state(), PlayerState::Stopped);
}

#[test]
fn close_while_started_then_terminal_event() {
    let mut adapter = MockAdapter::new();
    let mut player = started(&mut adapter);
    match player.close() {
        Some(req) => adapter.perform(req),
        None => panic!("first close must request a session close"),
    }
    assert_eq!(player.current_state(), PlayerState::Closing);
    assert_eq!(adapter.close_requests, 1);
    let requests_before = adapter.event_requests;
    let outcome = adapter.deliver(&mut player, ME_SESSION_CLOSED);
    assert_eq!(outcome, InvokeOutcome::Terminated);
    assert_eq!(player.current_state(), PlayerState::Closed);
    assert_eq!(adapter.event_requests, requests_before);
    assert_eq!(player.release(), PlayerState::Closed);
}

#[test]
fn close_twice_requests_one_session_close() {
    let mut adapter = MockAdapter::new();
    let mut player = started(&mut adapter);
    if let Some(req) = player.close() {
        adapter.perform(req);
    }
    if let Some(req) = player.close() {
        adapter.perform(req);
    }
    assert_eq!(adapter.close_requests, 1);
    assert_eq!(player.current_state(), PlayerState::Closing);
}

#[test]
fn close_when_already_closed_is_a_noop() {
    let mut adapter = MockAdapter::new();
    let mut player = started(&mut adapter);
    if let Some(req) = player.close() {
        adapter.perform(req);
    }
    adapter.deliver(&mut player, ME_SESSION_CLOSED);
    assert_eq!(player.current_state(), PlayerState::Closed);
    assert_eq!(player.close(), None);
    assert_eq!(adapter.close_requests, 1);
}

#[test]
fn unrecognized_event_keeps_state_and_rearms() {
    let mut adapter = MockAdapter::new();
    let mut player = started(&mut adapter);
    let requests_before = adapter.event_requests;
    let outcome = adapter.deliver(&mut player, 9999);
    assert_eq!(outcome, InvokeOutcome::ReArmed);
    assert_eq!(player.current_state(), PlayerState::Started);
    assert_eq!(adapter.event_requests, requests_before + 1);
}

#[test]
fn error_event_closes_session_but_rearms() {
    let mut adapter = MockAdapter::new();
    let mut player = started(&mut adapter);
    let requests_before = adapter.event_requests;
    let outcome = adapter.deliver(&mut player, ME_ERROR);
    assert_eq!(outcome, InvokeOutcome::ReArmed);
    assert_eq!(player.current_state(), PlayerState::Closed);
    assert_eq!(adapter.event_requests, requests_before + 1);
}

#[test]
fn every_nonterminal_event_rearms_exactly_once() {
    let mut adapter = MockAdapter::new();
    let mut player = started(&mut adapter);
    let requests_before = adapter.event_requests;
    let nonterminal = [
        ME_SESSION_TOPOLOGY_SET,
        ME_SESSION_TOPOLOGY_STATUS,
        ME_SESSION_PAUSED,
        ME_SESSION_STARTED,
        0,
        7777,
    ];
    for (i, code) in nonterminal.iter().enumerate() {
        adapter.deliver(&mut player, *code);
        assert_eq!(adapter.event_requests, requests_before + 1 + i as u32);
    }
    adapter.deliver(&mut player, ME_SESSION_CLOSED);
    assert_eq!(
        adapter.event_requests,
        requests_before + nonterminal.len() as u32
    );
}

#[test]
fn retrieval_failure_is_fatal_and_stops_the_pump() {
    let mut adapter = MockAdapter::new();
    let mut player = started(&mut adapter);
    let requests_before = adapter.event_requests;
    let outcome = player.invoke(None);
    assert_eq!(outcome, InvokeOutcome::Fatal);
    assert_eq!(player.current_state(), PlayerState::Started);
    assert_eq!(adapter.event_requests, requests_before);
    // The registration was consumed; the controller may be torn down.
    player.release();
}

#[test]
fn reopen_after_close_is_accepted() {
    let mut adapter = MockAdapter::new();
    let mut player = started(&mut adapter);
    if let Some(req) = player.close() {
        adapter.perform(req);
    }
    adapter.deliver(&mut player, ME_SESSION_CLOSED);
    assert_eq!(player.current_state(), PlayerState::Closed);
    let r = player.open(Some(MediaSourceHandle { token: 9 }));
    assert!(r.is_ok());
    assert_eq!(player.current_state(), PlayerState::OpenPending);
}
