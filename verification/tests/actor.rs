//! Tests of the coordinating actor: pending-table registration, event
//! resolution, exactly-once reply delivery, and channel consumption.

use file_sharing::client::Client;
use file_sharing::command::Command;
use file_sharing::event_loop::{listen_reply, DialPlan, EventLoop};
use file_sharing::events::{ConsistencyViolation, Effect, Event, NetworkEvent};
use file_sharing::reply::{ReplyHandle, ReplyValue};

fn handle_of(cmd: Command) -> ReplyHandle {
    match cmd {
        Command::StartListening { sender, .. } => sender,
        Command::Dial { sender, .. } => sender,
        Command::StartProviding { sender, .. } => sender,
        Command::GetProviders { sender, .. } => sender,
        Command::RequestFile { sender, .. } => sender,
        Command::RespondFile { .. } => panic!("respond carries no reply handle"),
    }
}

#[test]
fn advertise_completion_resolves_pending_entry() {
    let mut client = Client::new();
    let mut actor = EventLoop::new();
    let cmd = client.start_providing("report.txt".to_string());
    let sender = handle_of(cmd);
    let id = sender.id();
    actor.register_start_providing(11, sender);
    assert!(actor.advertise_is_pending(11));
    let effect = actor.handle_event(NetworkEvent::AdvertiseCompleted { query_id: 11 });
    match effect {
        Ok(Effect::Reply(rep)) => {
            assert_eq!(rep.handle.id(), id);
            assert_eq!(rep.value, ReplyValue::Done);
        }
        other => panic!("expected a reply, got {:?}", is_err_str(&other)),
    }
    assert!(!actor.advertise_is_pending(11));
}

fn is_err_str(r: &Result<Effect, ConsistencyViolation>) -> &'static str {
    match r {
        Ok(Effect::Reply(_)) => "reply",
        Ok(Effect::Emit(_)) => "emit",
        Ok(Effect::Nothing) => "nothing",
        Err(_) => "violation",
    }
}

#[test]
fn double_completion_is_rejected_not_applied() {
    let mut client = Client::new();
    let mut actor = EventLoop::new();
    let sender = handle_of(client.start_providing("report.txt".to_string()));
    actor.register_start_providing(4, sender);
    let first = actor.handle_event(NetworkEvent::AdvertiseCompleted { query_id: 4 });
    assert!(matches!(first, Ok(Effect::Reply(_))));
    // An adversarial second completion for the same operation: exactly one
    // reply was delivered, the second is an internal-consistency violation.
    let second = actor.handle_event(NetworkEvent::AdvertiseCompleted { query_id: 4 });
    assert_eq!(
        second.err(),
        Some(ConsistencyViolation::UnknownAdvertiseCompletion { query_id: 4 })
    );
}

#[test]
fn lookup_completion_delivers_providers() {
    let mut client = Client::new();
    let mut actor = EventLoop::new();
    let sender = handle_of(client.get_providers("report.txt".to_string()));
    let id = sender.id();
    actor.register_get_providers(9, sender);
    let effect = actor.handle_event(NetworkEvent::LookupCompleted {
        query_id: 9,
        providers: vec![3, 5],
    });
    match effect {
        Ok(Effect::Reply(rep)) => {
            assert_eq!(rep.handle.id(), id);
            assert_eq!(rep.value, ReplyValue::Providers(vec![3, 5]));
        }
        other => panic!("expected a reply, got {}", is_err_str(&other)),
    }
}

#[test]
fn unknown_lookup_completion_is_a_violation() {
    let mut actor = EventLoop::new();
    let effect = actor.handle_event(NetworkEvent::LookupCompleted {
        query_id: 2,
        providers: vec![],
    });
    assert_eq!(
        effect.err(),
        Some(ConsistencyViolation::UnknownLookupCompletion { query_id: 2 })
    );
}

#[test]
fn request_answered_then_failure_is_a_violation() {
    let mut client = Client::new();
    let mut actor = EventLoop::new();
    let sender = handle_of(client.request_file(3, "report.txt".to_string()));
    let id = sender.id();
    actor.register_request_file(21, sender);
    let effect = actor.handle_event(NetworkEvent::OutboundResponseMessage {
        request_id: 21,
        response: "hello world".to_string(),
    });
    match effect {
        Ok(Effect::Reply(rep)) => {
            assert_eq!(rep.handle.id(), id);
            assert_eq!(rep.value, ReplyValue::File("hello world".to_string()));
        }
        other => panic!("expected a reply, got {}", is_err_str(&other)),
    }
    // A late failure for the already-answered request must not produce a
    // second reply.
    let late = actor.handle_event(NetworkEvent::OutboundFailure {
        request_id: 21,
        error: "timed out".to_string(),
    });
    assert_eq!(
        late.err(),
        Some(ConsistencyViolation::UnknownRequestCompletion { request_id: 21 })
    );
}

#[test]
fn outbound_failure_resolves_request_with_cause() {
    let mut client = Client::new();
    let mut actor = EventLoop::new();
    let sender = handle_of(client.request_file(3, "report.txt".to_string()));
    actor.register_request_file(8, sender);
    let effect = actor.handle_event(NetworkEvent::OutboundFailure {
        request_id: 8,
        error: "connection reset".to_string(),
    });
    match effect {
        Ok(Effect::Reply(rep)) => {
            assert_eq!(rep.value, ReplyValue::Failed("connection reset".to_string()));
        }
        other => panic!("expected a reply, got {}", is_err_str(&other)),
    }
}

#[test]
fn duplicate_dial_is_rejected_before_issuing() {
    let mut client = Client::new();
    let mut actor = EventLoop::new();
    let first = handle_of(client.dial(7, "/ip4/127.0.0.1/tcp/4001".to_string()));
    match actor.plan_dial(7, first) {
        DialPlan::Issue { peer_id, sender } => {
            assert_eq!(peer_id, 7);
            assert!(actor.settle_dial(7, sender, Ok(())).is_none());
        }
        DialPlan::Duplicate(_) => panic!("no dial was pending"),
    }
    assert!(actor.dial_is_pending(7));
    let second = handle_of(client.dial(7, "/ip4/127.0.0.1/tcp/4001".to_string()));
    match actor.plan_dial(7, second) {
        DialPlan::Duplicate(rep) => {
            assert_eq!(rep.value, ReplyValue::Failed("already dialing peer".to_string()));
        }
        DialPlan::Issue { .. } => panic!("a dial was already pending"),
    }
}

#[test]
fn failed_dial_initiation_fails_at_once_without_pending_entry() {
    let mut client = Client::new();
    let mut actor = EventLoop::new();
    let sender = handle_of(client.dial(7, "/ip4/127.0.0.1/tcp/4001".to_string()));
    let id = sender.id();
    let rep = actor
        .settle_dial(7, sender, Err("no transport".to_string()))
        .expect("immediate failure must fail the reply");
    assert_eq!(rep.handle.id(), id);
    assert_eq!(rep.value, ReplyValue::Failed("no transport".to_string()));
    assert!(!actor.dial_is_pending(7));
}

#[test]
fn connection_established_resolves_dial_once() {
    let mut client = Client::new();
    let mut actor = EventLoop::new();
    let sender = handle_of(client.dial(7, "/ip4/127.0.0.1/tcp/4001".to_string()));
    let id = sender.id();
    assert!(actor.settle_dial(7, sender, Ok(())).is_none());
    let effect = actor.handle_event(NetworkEvent::ConnectionEstablished { peer_id: 7, dialer: true });
    match effect {
        Ok(Effect::Reply(rep)) => {
            assert_eq!(rep.handle.id(), id);
            assert_eq!(rep.value, ReplyValue::Done);
        }
        other => panic!("expected a reply, got {}", is_err_str(&other)),
    }
    // A further established connection to the same peer is not a dial
    // completion any more: it is observed and ignored, never a second reply.
    let again = actor.handle_event(NetworkEvent::ConnectionEstablished { peer_id: 7, dialer: true });
    assert!(matches!(again, Ok(Effect::Nothing)));
}

#[test]
fn inbound_connection_does_not_resolve_a_dial() {
    let mut client = Client::new();
    let mut actor = EventLoop::new();
    let sender = handle_of(client.dial(7, "/ip4/127.0.0.1/tcp/4001".to_string()));
    assert!(actor.settle_dial(7, sender, Ok(())).is_none());
    let effect = actor.handle_event(NetworkEvent::ConnectionEstablished { peer_id: 7, dialer: false });
    assert!(matches!(effect, Ok(Effect::Nothing)));
    assert!(actor.dial_is_pending(7));
}

#[test]
fn outgoing_connection_error_fails_pending_dial() {
    let mut client = Client::new();
    let mut actor = EventLoop::new();
    let sender = handle_of(client.dial(7, "/ip4/127.0.0.1/tcp/4001".to_string()));
    assert!(actor.settle_dial(7, sender, Ok(())).is_none());
    let effect = actor.handle_event(NetworkEvent::OutgoingConnectionError {
        peer_id: Some(7),
        error: "unreachable".to_string(),
    });
    match effect {
        Ok(Effect::Reply(rep)) => {
            assert_eq!(rep.value, ReplyValue::Failed("unreachable".to_string()));
        }
        other => panic!("expected a reply, got {}", is_err_str(&other)),
    }
    assert!(!actor.dial_is_pending(7));
}

#[test]
fn inbound_request_opens_channel_and_is_emitted() {
    let mut actor = EventLoop::new();
    let effect = actor.handle_event(NetworkEvent::InboundRequestMessage {
        request: "report.txt".to_string(),
        channel: 40,
    });
    match effect {
        Ok(Effect::Emit(Event::InboundRequest { request, channel })) => {
            assert_eq!(request, "report.txt".to_string());
            assert_eq!(channel, 40);
        }
        other => panic!("expected an emitted event, got {}", is_err_str(&other)),
    }
    assert!(actor.channel_is_open(40));
}

#[test]
fn respond_file_twice_is_rejected_on_the_second_call() {
    let mut actor = EventLoop::new();
    let inbound = actor.handle_event(NetworkEvent::InboundRequestMessage {
        request: "report.txt".to_string(),
        channel: 40,
    });
    assert!(matches!(inbound, Ok(Effect::Emit(_))));
    let first = actor.handle_respond_file("hello world".to_string(), 40);
    let action = first.expect("the channel is open: the first respond is accepted");
    assert_eq!(action.channel, 40);
    assert_eq!(action.file, "hello world".to_string());
    // The channel was consumed: a second respond through it is rejected.
    let second = actor.handle_respond_file("hello world".to_string(), 40);
    assert_eq!(
        second.err(),
        Some(ConsistencyViolation::ChannelAlreadyUsed { channel: 40 })
    );
}

#[test]
fn inbound_request_reusing_a_live_channel_is_rejected() {
    let mut actor = EventLoop::new();
    let first = actor.handle_event(NetworkEvent::InboundRequestMessage {
        request: "report.txt".to_string(),
        channel: 40,
    });
    assert!(matches!(first, Ok(Effect::Emit(_))));
    let second = actor.handle_event(NetworkEvent::InboundRequestMessage {
        request: "other.txt".to_string(),
        channel: 40,
    });
    assert_eq!(second.err(), Some(ConsistencyViolation::ChannelReopened { channel: 40 }));
}

#[test]
fn respond_on_unknown_channel_is_rejected() {
    let mut actor = EventLoop::new();
    let r = actor.handle_respond_file("hello world".to_string(), 99);
    assert_eq!(r.err(), Some(ConsistencyViolation::ChannelAlreadyUsed { channel: 99 }));
}

#[test]
fn listen_reply_carries_the_bind_outcome() {
    let mut client = Client::new();
    let ok_sender = handle_of(client.start_listening("/ip4/0.0.0.0/tcp/0".to_string()));
    let rep = listen_reply(ok_sender, Ok(()));
    assert_eq!(rep.value, ReplyValue::Done);
    let err_sender = handle_of(client.start_listening("/ip4/0.0.0.0/tcp/0".to_string()));
    let rep = listen_reply(err_sender, Err("address in use".to_string()));
    assert_eq!(rep.value, ReplyValue::Failed("address in use".to_string()));
}

#[test]
fn observed_events_produce_nothing() {
    let mut actor = EventLoop::new();
    assert!(matches!(actor.handle_event(NetworkEvent::ResponseSent), Ok(Effect::Nothing)));
    assert!(matches!(
        actor.handle_event(NetworkEvent::NewListenAddr { addr: "/ip4/127.0.0.1/tcp/4001".to_string() }),
        Ok(Effect::Nothing)
    ));
    assert!(matches!(actor.handle_event(NetworkEvent::IncomingConnection), Ok(Effect::Nothing)));
    assert!(matches!(actor.handle_event(NetworkEvent::ConnectionClosed), Ok(Effect::Nothing)));
    assert!(matches!(actor.handle_event(NetworkEvent::IncomingConnectionError), Ok(Effect::Nothing)));
    assert!(matches!(actor.handle_event(NetworkEvent::Dialing { peer_id: 3 }), Ok(Effect::Nothing)));
    assert!(matches!(
        actor.handle_event(NetworkEvent::OutgoingConnectionError { peer_id: None, error: "lost".to_string() }),
        Ok(Effect::Nothing)
    ));
}

#[test]
fn facade_mints_distinct_handles() {
    let mut client = Client::new();
    let a = handle_of(client.start_providing("a.txt".to_string()));
    let b = handle_of(client.get_providers("a.txt".to_string()));
    let c = handle_of(client.request_file(1, "a.txt".to_string()));
    assert_ne!(a.id(), b.id());
    assert_ne!(b.id(), c.id());
    assert_ne!(a.id(), c.id());
}

#[test]
fn respond_file_command_names_channel_and_content() {
    let client = Client::new();
    let cmd = client.respond_file("hello world".to_string(), 12);
    match cmd {
        Command::RespondFile { file, channel } => {
            assert_eq!(file, "hello world".to_string());
            assert_eq!(channel, 12);
        }
        _ => panic!("expected a respond command"),
    }
}
