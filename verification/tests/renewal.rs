use heartbeat::client::interpret_response;
use heartbeat::client::refresh_url;
use heartbeat::client::ticket_query;
use heartbeat::client::ClientError;
use heartbeat::envelope::Decoded;
use heartbeat::envelope::DecodeFault;
use heartbeat::lifecycle::CancelSignal;
use heartbeat::lifecycle::HeartbeatConfig;
use heartbeat::machine::Action;
use heartbeat::machine::Event;
use heartbeat::machine::Phase;
use heartbeat::machine::RenewalLoop;
use heartbeat::Error;
use heartbeat::KeepAliveTicket;
use heartbeat::Payload;
use heartbeat::Response;

fn granted(id: &str, expires: i64) -> Response<KeepAliveTicket> {
    Response {
        payload: Some(Payload {
            kind: "Ticket".to_string(),
            object: KeepAliveTicket::new(id.to_string(), expires),
        }),
        error: None,
    }
}

fn denied(kind: &str, message: &str, cause: Option<&str>) -> Response<KeepAliveTicket> {
    Response {
        payload: None,
        error: Some(Error {
            kind: kind.to_string(),
            message: message.to_string(),
            cause: cause.map(|c| c.to_string()),
        }),
    }
}

#[test]
fn envelope_with_both_halves_is_a_decode_error() {
    let mut response = granted("pod-42", 100);
    response.error = Some(Error {
        kind: "Denied".to_string(),
        message: "lease expired".to_string(),
        cause: None,
    });
    assert_eq!(response.classify().unwrap_err(), DecodeFault::BothPresent);
    let again = granted("pod-42", 100);
    let mut both = again;
    both.error = Some(Error {
        kind: "Denied".to_string(),
        message: "lease expired".to_string(),
        cause: None,
    });
    match interpret_response(both) {
        Err(ClientError::Decode { .. }) => {}
        other => panic!("expected a decode failure, got {:?}", other),
    }
}

#[test]
fn envelope_with_neither_half_is_a_decode_error() {
    let response: Response<KeepAliveTicket> = Response { payload: None, error: None };
    assert_eq!(response.classify().unwrap_err(), DecodeFault::NeitherPresent);
    let empty: Response<KeepAliveTicket> = Response { payload: None, error: None };
    match interpret_response(empty) {
        Err(ClientError::Decode { .. }) => {}
        other => panic!("expected a decode failure, got {:?}", other),
    }
}

#[test]
fn payload_only_envelope_yields_the_ticket() {
    let response = granted("pod-42", 12345);
    match response.clone().classify() {
        Ok(Decoded::Granted(payload)) => {
            assert_eq!(payload.kind, "Ticket");
            assert_eq!(payload.object.expires_at(), 12345);
        }
        other => panic!("expected a granted payload, got {:?}", other),
    }
    let ticket = interpret_response(response).unwrap();
    assert_eq!(ticket.expires_at(), 12345);
}

#[test]
fn error_only_envelope_is_a_denial_with_the_control_planes_fields() {
    let response = denied("LeaseDenied", "resource is gone", Some("deleted"));
    match interpret_response(response) {
        Err(ClientError::Denied { kind, message, cause }) => {
            assert_eq!(kind, "LeaseDenied");
            assert_eq!(message, "resource is gone");
            assert_eq!(cause.as_deref(), Some("deleted"));
        }
        other => panic!("expected a denial, got {:?}", other),
    }
}

#[test]
fn expect_hands_out_the_payload_object() {
    let response = granted("pod-42", 777);
    assert_eq!(response.expect().expires_at(), 777);
}

#[test]
fn error_kind_names() {
    let transport = ClientError::Transport { message: "dns".to_string() };
    let decode = ClientError::Decode { message: "bad body".to_string() };
    let denied = ClientError::Denied {
        kind: "k".to_string(),
        message: "m".to_string(),
        cause: None,
    };
    assert_eq!(transport.kind_name(), "TransportError");
    assert_eq!(decode.kind_name(), "DecodeError");
    assert_eq!(denied.kind_name(), "LeaseDenied");
}

#[test]
fn refresh_url_appends_the_refresh_path() {
    assert_eq!(refresh_url("https://acm.example"), "https://acm.example/refresh");
    assert_eq!(refresh_url("https://acm.example/"), "https://acm.example//refresh");
}

#[test]
fn ticket_query_carries_the_resource_id() {
    let query = ticket_query("pod-42");
    assert_eq!(query.len(), 1);
    assert_eq!(query[0].0, "ticket");
    assert_eq!(query[0].1, "pod-42");
}

#[test]
fn constructor_rejects_a_malformed_endpoint() {
    let result = HeartbeatConfig::new("not a url", "pod-42".to_string(), 10);
    let error = match result {
        Err(error) => error,
        Ok(_) => panic!("a malformed endpoint must be rejected"),
    };
    assert_eq!(error.endpoint, "not a url");
    assert_eq!(
        error.message(),
        "endpoint is not a well-formed URL: not a url"
    );
}

#[test]
fn constructor_accepts_a_well_formed_endpoint_without_starting_anything() {
    let config = HeartbeatConfig::new("https://acm.example/", "pod-42".to_string(), 20)
        .expect("a well-formed endpoint must be accepted");
    assert_eq!(config.url_text().as_str(), "https://acm.example//refresh");
    assert_eq!(config.resource_id().as_str(), "pod-42");
    assert_eq!(config.ttl_seconds(), 20);
    assert_eq!(config.url().as_str(), "https://acm.example//refresh");
}

#[test]
fn renewal_cycle_sleeps_half_the_ttl_then_renews_the_same_resource() {
    let config = HeartbeatConfig::new("https://acm.example/", "pod-42".to_string(), 20)
        .expect("a well-formed endpoint must be accepted");
    let mut machine = RenewalLoop::new(config.ttl_seconds());
    assert_eq!(machine.current_phase(), Phase::AwaitingLease);

    let now = 1_700_000_000i64;
    let ticket = KeepAliveTicket::new("pod-42".to_string(), now + 20);
    let action = machine.step(Event::LeaseGranted(ticket));
    assert_eq!(action, Action::StartSleep { seconds: 10 });
    assert_eq!(machine.current_phase(), Phase::Sleeping);

    let action = machine.step(Event::TimerElapsed);
    assert_eq!(action, Action::StartRenewal);
    assert_eq!(machine.current_phase(), Phase::AwaitingLease);

    let second_query = ticket_query(config.resource_id());
    assert_eq!(second_query[0].1, "pod-42");
}

#[test]
fn renewal_cadence_is_half_the_configured_ttl() {
    let mut machine = RenewalLoop::new(10);
    let ticket = KeepAliveTicket::new("pod-42".to_string(), 1000);
    let action = machine.step(Event::LeaseGranted(ticket));
    assert_eq!(action, Action::StartSleep { seconds: 5 });
}

#[test]
fn cancellation_while_awaiting_a_lease_stops_the_loop() {
    let mut machine = RenewalLoop::new(10);
    let action = machine.step(Event::Cancelled);
    assert_eq!(action, Action::Exit);
    assert_eq!(machine.current_phase(), Phase::ShuttingDown);
    let ticket = KeepAliveTicket::new("pod-42".to_string(), 1000);
    let action = machine.step(Event::LeaseGranted(ticket));
    assert_eq!(action, Action::Exit);
    assert_eq!(machine.current_phase(), Phase::Stopped);
}

#[test]
fn cancellation_while_sleeping_prevents_any_further_renewal() {
    let mut machine = RenewalLoop::new(10);
    let ticket = KeepAliveTicket::new("pod-42".to_string(), 1000);
    machine.step(Event::LeaseGranted(ticket));
    assert_eq!(machine.current_phase(), Phase::Sleeping);

    let action = machine.step(Event::Cancelled);
    assert_eq!(action, Action::Exit);
    assert_eq!(machine.current_phase(), Phase::ShuttingDown);

    let action = machine.step(Event::TimerElapsed);
    assert_eq!(action, Action::Exit);
    assert_ne!(machine.current_phase(), Phase::AwaitingLease);
    let action = machine.step(Event::TimerElapsed);
    assert_eq!(action, Action::Exit);
    assert_eq!(machine.current_phase(), Phase::Stopped);
}

#[test]
fn a_failed_renewal_is_fatal_to_the_loop() {
    let mut machine = RenewalLoop::new(10);
    let action = machine.step(Event::LeaseFailed(ClientError::Transport {
        message: "connection refused".to_string(),
    }));
    assert_eq!(action, Action::Exit);
    assert_eq!(machine.current_phase(), Phase::ShuttingDown);
}

#[test]
fn cancel_signal_fires_exactly_once() {
    let mut signal = CancelSignal::new();
    assert!(!signal.observed());
    assert!(signal.fire());
    assert!(signal.observed());
    assert!(!signal.fire());
    assert!(signal.observed());
}
