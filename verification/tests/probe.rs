use mcstatus::probe::{JSON_DEADLINE_SECS, TEXT_DEADLINE_SECS};
use mcstatus::shape::{HTTP_OK, HTTP_SERVICE_UNAVAILABLE};
use mcstatus::{
    rocket, status, status_json, step, Endpoint, ProbeAction, ProbeEvent, ProbeOutcome,
    ProbeState, Response, Route, ServerDescriptionDef, ServerPlayersDef, ServerVersionDef,
    StatusError, StatusResponseDef,
};

fn record() -> StatusResponseDef {
    StatusResponseDef {
        version: ServerVersionDef { name: "1.19.4".to_string(), protocol: 762 },
        players: ServerPlayersDef { max: 20, online: 3, sample: None },
        description: ServerDescriptionDef::Object { text: "A Minecraft Server".to_string() },
        favicon: None,
    }
}

fn request(address: &str, endpoint: Endpoint) -> ProbeEvent {
    ProbeEvent::Requested { address: address.to_string(), endpoint }
}

fn started(address: &str, endpoint: Endpoint) -> ProbeState {
    let (state, action) = step(ProbeState::Idle, request(address, endpoint));
    assert!(matches!(action, ProbeAction::Connect { .. }));
    state
}

#[test]
fn deadlines_are_two_and_five_seconds() {
    assert_eq!(TEXT_DEADLINE_SECS, 2);
    assert_eq!(JSON_DEADLINE_SECS, 5);
    assert_eq!(Endpoint::Text.deadline_secs(), 2);
    assert_eq!(Endpoint::Json.deadline_secs(), 5);
}

#[test]
fn request_opens_the_connection() {
    let (state, action) = step(ProbeState::Idle, request("example.com:25570", Endpoint::Text));
    assert_eq!(state, ProbeState::InFlight);
    match action {
        ProbeAction::Connect { target, deadline_secs } => {
            assert_eq!(target.host(), "example.com");
            assert_eq!(target.port(), 25570);
            assert_eq!(deadline_secs, 2);
        }
        other => panic!("no connection: {:?}", other),
    }
    let (state, action) = step(ProbeState::Idle, request("example.com", Endpoint::Json));
    assert_eq!(state, ProbeState::InFlight);
    match action {
        ProbeAction::Connect { target, deadline_secs } => {
            assert_eq!(target.host(), "example.com");
            assert_eq!(target.port(), 25565);
            assert_eq!(deadline_secs, 5);
        }
        other => panic!("no connection: {:?}", other),
    }
}

#[test]
fn live_server_is_online() {
    let state = started("example.com", Endpoint::Text);
    let (state, action) = step(state, ProbeEvent::Answered(record()));
    assert_eq!(action, ProbeAction::StopTimer);
    assert_eq!(state, ProbeState::Done(ProbeOutcome::Success(record())));
    let outcome = state.outcome().unwrap();
    let text = status(&outcome);
    assert_eq!(text.code, 200);
    assert_eq!(text.body, "Online");
    let json = status_json(outcome);
    assert_eq!(json.code, 200);
    assert_eq!(json.body, Response { err: None, result: Some(record()) });
    assert_eq!(
        json.body.to_json(),
        "{\"result\":{\"version\":{\"name\":\"1.19.4\",\"protocol\":762},\
         \"players\":{\"max\":20,\"online\":3},\
         \"description\":\"A Minecraft Server\"}}"
    );
}

#[test]
fn refused_connection_is_offline() {
    let state = started("example.com:25565", Endpoint::Json);
    let (state, action) = step(state, ProbeEvent::Failed);
    assert_eq!(action, ProbeAction::StopTimer);
    assert_eq!(state, ProbeState::Done(ProbeOutcome::ProtocolFailure));
    let outcome = state.outcome().unwrap();
    let text = status(&outcome);
    assert_eq!(text.code, 503);
    assert_eq!(text.body, "Offline");
    let json = status_json(outcome);
    assert_eq!(json.code, 200);
    assert_eq!(json.body, Response { err: Some(StatusError::ProtocolError), result: None });
    assert_eq!(json.body.to_json(), "{\"err\":\"ProtocolError\"}");
}

#[test]
fn silent_server_times_out() {
    for endpoint in [Endpoint::Text, Endpoint::Json] {
        let state = started("example.com", endpoint);
        let (state, action) = step(state, ProbeEvent::DeadlineElapsed);
        assert_eq!(action, ProbeAction::AbandonExchange);
        assert_eq!(state, ProbeState::Done(ProbeOutcome::Timeout));
        let outcome = state.outcome().unwrap();
        assert_eq!(outcome.error(), Some(StatusError::Timeout));
        let text = status(&outcome);
        assert_eq!(text.code, 503);
        assert_eq!(text.body, "Offline");
        let json = status_json(outcome);
        assert_eq!(json.code, 200);
        assert_eq!(json.body.to_json(), "{\"err\":\"Timeout\"}");
    }
}

#[test]
fn nothing_is_taken_from_an_abandoned_exchange() {
    let state = started("example.com", Endpoint::Text);
    let (state, _) = step(state, ProbeEvent::DeadlineElapsed);
    let (state, action) = step(state, ProbeEvent::Answered(record()));
    assert_eq!(action, ProbeAction::Nothing);
    assert_eq!(state, ProbeState::Done(ProbeOutcome::Timeout));
    let (state, action) = step(state, ProbeEvent::Failed);
    assert_eq!(action, ProbeAction::Nothing);
    assert_eq!(state, ProbeState::Done(ProbeOutcome::Timeout));
}

#[test]
fn deadline_after_the_answer_changes_nothing() {
    let state = started("example.com", Endpoint::Text);
    let (state, _) = step(state, ProbeEvent::Answered(record()));
    let (state, action) = step(state, ProbeEvent::DeadlineElapsed);
    assert_eq!(action, ProbeAction::Nothing);
    assert_eq!(state, ProbeState::Done(ProbeOutcome::Success(record())));
    let state = started("example.com", Endpoint::Text);
    let (state, _) = step(state, ProbeEvent::Failed);
    let (state, action) = step(state, ProbeEvent::DeadlineElapsed);
    assert_eq!(action, ProbeAction::Nothing);
    assert_eq!(state, ProbeState::Done(ProbeOutcome::ProtocolFailure));
}

#[test]
fn out_of_range_port_is_probed_on_the_default_port() {
    let (state, action) = step(ProbeState::Idle, request("example.com:99999", Endpoint::Json));
    assert_eq!(state, ProbeState::InFlight);
    match action {
        ProbeAction::Connect { target, deadline_secs } => {
            assert_eq!(target.host(), "example.com");
            assert_eq!(target.port(), 25565);
            assert_eq!(deadline_secs, 5);
        }
        other => panic!("no connection: {:?}", other),
    }
}

#[test]
fn address_without_host_opens_no_connection() {
    for address in ["", ":25565", ":"] {
        let (state, action) = step(ProbeState::Idle, request(address, Endpoint::Json));
        assert_eq!(action, ProbeAction::Nothing);
        assert_eq!(state, ProbeState::Done(ProbeOutcome::InvalidInput));
        let outcome = state.outcome().unwrap();
        let text = status(&outcome);
        assert_eq!(text.code, 503);
        assert_eq!(text.body, "Offline");
        let json = status_json(outcome);
        assert_eq!(json.code, 200);
        assert_eq!(json.body.to_json(), "{\"err\":\"InvalidInput\"}");
    }
}

#[test]
fn second_request_opens_no_second_connection() {
    let state = started("example.com", Endpoint::Text);
    let (state, action) = step(state, request("example.org", Endpoint::Text));
    assert_eq!(action, ProbeAction::Nothing);
    assert_eq!(state, ProbeState::InFlight);
    let (state, _) = step(state, ProbeEvent::Failed);
    let (state, action) = step(state, request("example.org", Endpoint::Text));
    assert_eq!(action, ProbeAction::Nothing);
    assert_eq!(state, ProbeState::Done(ProbeOutcome::ProtocolFailure));
}

#[test]
fn events_before_the_request_are_ignored() {
    let (state, action) = step(ProbeState::Idle, ProbeEvent::Answered(record()));
    assert_eq!((state, action), (ProbeState::Idle, ProbeAction::Nothing));
    let (state, action) = step(ProbeState::Idle, ProbeEvent::Failed);
    assert_eq!((state, action), (ProbeState::Idle, ProbeAction::Nothing));
    let (state, action) = step(ProbeState::Idle, ProbeEvent::DeadlineElapsed);
    assert_eq!((state, action), (ProbeState::Idle, ProbeAction::Nothing));
}

#[test]
fn outcome_is_known_only_at_the_end() {
    assert_eq!(ProbeState::Idle.outcome(), None);
    assert_eq!(ProbeState::InFlight.outcome(), None);
    assert_eq!(ProbeState::Done(ProbeOutcome::Timeout).outcome(), Some(ProbeOutcome::Timeout));
}

#[test]
fn outcome_has_its_error_tag() {
    assert_eq!(ProbeOutcome::Success(record()).error(), None);
    assert_eq!(ProbeOutcome::ProtocolFailure.error(), Some(StatusError::ProtocolError));
    assert_eq!(ProbeOutcome::Timeout.error(), Some(StatusError::Timeout));
    assert_eq!(ProbeOutcome::InvalidInput.error(), Some(StatusError::InvalidInput));
}

#[test]
fn text_answer_is_the_same_for_every_failure() {
    let failures =
        [ProbeOutcome::ProtocolFailure, ProbeOutcome::Timeout, ProbeOutcome::InvalidInput];
    for failure in failures.iter() {
        let answer = status(failure);
        assert_eq!(answer.code, HTTP_SERVICE_UNAVAILABLE);
        assert_eq!(answer.code, 503);
        assert_eq!(answer.body, "Offline");
    }
    assert_eq!(HTTP_OK, 200);
}

#[test]
fn envelope_holds_exactly_one_field() {
    let outcomes = [
        ProbeOutcome::Success(record()),
        ProbeOutcome::ProtocolFailure,
        ProbeOutcome::Timeout,
        ProbeOutcome::InvalidInput,
    ];
    for outcome in outcomes {
        let success = matches!(outcome, ProbeOutcome::Success(_));
        let answer = status_json(outcome);
        assert_eq!(answer.code, 200);
        assert_eq!(answer.body.result.is_some(), success);
        assert_eq!(answer.body.err.is_some(), !success);
    }
}

#[test]
fn shaping_twice_gives_the_same_bytes() {
    let outcomes = [
        ProbeOutcome::Success(record()),
        ProbeOutcome::ProtocolFailure,
        ProbeOutcome::Timeout,
        ProbeOutcome::InvalidInput,
    ];
    for outcome in outcomes {
        let first = status(&outcome);
        let second = status(&outcome);
        assert_eq!(first, second);
        assert_eq!(first.body.as_bytes(), second.body.as_bytes());
        let first = status_json(outcome.clone());
        let second = status_json(outcome);
        assert_eq!(first, second);
        assert_eq!(first.body.to_json().into_bytes(), second.body.to_json().into_bytes());
        assert_eq!(first.body.to_json().into_bytes(), first.body.to_json().into_bytes());
    }
}

#[test]
fn service_launches_with_two_routes() {
    let routes = rocket();
    assert_eq!(
        routes,
        vec![
            Route {
                method: "GET",
                pattern: "/<address>",
                endpoint: Endpoint::Text,
                deadline_secs: 2,
            },
            Route {
                method: "GET",
                pattern: "/<address>/json",
                endpoint: Endpoint::Json,
                deadline_secs: 5,
            },
        ]
    );
}
