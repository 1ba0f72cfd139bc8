use jami::dispatch::{react, POLL_INTERVAL_MS, SUBSCRIPTIONS};
use jami::{
    Action, DecodeError, Dict, Dispatch, Event, Failure, Fatal, Input, Policy, Reaction, Signal,
    Value,
};
use std::sync::atomic::{AtomicBool, Ordering};

const ORDER: [Signal; 12] = [
    Signal::AccountsChanged,
    Signal::MessageReceived,
    Signal::RegistrationStateChanged,
    Signal::ConversationReady,
    Signal::ConversationRemoved,
    Signal::ConversationRequestReceived,
    Signal::RegisteredNameFound,
    Signal::ProfileReceived,
    Signal::IncomingTrustRequest,
    Signal::ConversationLoaded,
    Signal::DataTransferEvent,
    Signal::Resize,
];

fn listening() -> Dispatch {
    let (mut state, _) = Dispatch::start();
    for _ in 0..ORDER.len() {
        state = state.step(Input::Subscribed).0;
    }
    state
}

#[test]
fn start_asks_for_the_first_subscription() {
    let (state, action) = Dispatch::start();
    assert_eq!(state, Dispatch::Starting(Signal::AccountsChanged));
    assert_eq!(action, Action::Subscribe(Signal::AccountsChanged));
    assert!(!state.ended());
}

#[test]
fn subscriptions_are_registered_in_order_before_listening() {
    assert_eq!(SUBSCRIPTIONS, 12);
    let (mut state, mut action) = Dispatch::start();
    for (i, signal) in ORDER.iter().enumerate() {
        assert_eq!(state, Dispatch::Starting(*signal));
        assert_eq!(action, Action::Subscribe(*signal));
        let next = state.step(Input::Subscribed);
        state = next.0;
        action = next.1;
        if i + 1 < ORDER.len() {
            assert_ne!(state, Dispatch::Listening);
        }
    }
    assert_eq!(state, Dispatch::Listening);
    assert_eq!(action, Action::Wait { millis: 10 });
    assert_eq!(POLL_INTERVAL_MS, 10);
}

#[test]
fn listening_goes_on_while_the_flag_is_unset() {
    let mut state = listening();
    for _ in 0..100 {
        let (next, action) = state.step(Input::Tick { stop: false });
        assert_eq!(next, Dispatch::Listening);
        assert_eq!(action, Action::Wait { millis: POLL_INTERVAL_MS });
        state = next;
    }
}

#[test]
fn stop_flag_ends_listening_at_the_next_tick() {
    let state = listening();
    let (state, action) = state.step(Input::Tick { stop: true });
    assert_eq!(state, Dispatch::Stopping);
    assert_eq!(action, Action::Release);
    let (state, action) = state.step(Input::Released);
    assert_eq!(state, Dispatch::Stopped);
    assert_eq!(action, Action::Return);
    assert!(state.ended());
}

#[test]
fn no_subscription_is_asked_for_after_start() {
    let inputs = [
        Input::Subscribed,
        Input::Refused,
        Input::Tick { stop: false },
        Input::Tick { stop: true },
        Input::Released,
        Input::ConnectionLost,
    ];
    let states = [
        Dispatch::Listening,
        Dispatch::Stopping,
        Dispatch::Stopped,
        Dispatch::Failed(Fatal::ConnectionLost),
    ];
    for state in states {
        for a in inputs {
            for b in inputs {
                let (s1, a1) = state.step(a);
                let (s2, a2) = s1.step(b);
                for (s, act) in [(s1, a1), (s2, a2)] {
                    assert!(!matches!(s, Dispatch::Starting(_)));
                    assert!(!matches!(act, Action::Subscribe(_)));
                }
            }
        }
    }
}

#[test]
fn stopped_stays_stopped() {
    let state = Dispatch::Stopped;
    for input in [
        Input::Subscribed,
        Input::Refused,
        Input::Tick { stop: false },
        Input::Tick { stop: true },
        Input::Released,
        Input::ConnectionLost,
    ] {
        assert_eq!(state.step(input), (Dispatch::Stopped, Action::Return));
    }
}

#[test]
fn refused_subscription_is_fatal() {
    let (state, _) = Dispatch::start();
    let (state, _) = state.step(Input::Subscribed);
    let (state, action) = state.step(Input::Refused);
    assert_eq!(state, Dispatch::Failed(Fatal::SubscriptionRefused(Signal::MessageReceived)));
    assert_eq!(action, Action::Abort(Fatal::SubscriptionRefused(Signal::MessageReceived)));
    assert!(state.ended());
    let (state, action) = state.step(Input::Subscribed);
    assert_eq!(state, Dispatch::Failed(Fatal::SubscriptionRefused(Signal::MessageReceived)));
    assert_eq!(action, Action::Abort(Fatal::SubscriptionRefused(Signal::MessageReceived)));
}

#[test]
fn lost_connection_is_fatal_in_every_live_state() {
    for state in [Dispatch::Starting(Signal::ProfileReceived), Dispatch::Listening, Dispatch::Stopping] {
        let (next, action) = state.step(Input::ConnectionLost);
        assert_eq!(next, Dispatch::Failed(Fatal::ConnectionLost));
        assert_eq!(action, Action::Abort(Fatal::ConnectionLost));
    }
}

#[test]
fn unexpected_input_repeats_the_pending_action() {
    let (state, _) = Dispatch::start();
    assert_eq!(
        state.step(Input::Tick { stop: true }),
        (Dispatch::Starting(Signal::AccountsChanged), Action::Subscribe(Signal::AccountsChanged))
    );
    assert_eq!(state.step(Input::Released).0, state);
    assert_eq!(
        Dispatch::Listening.step(Input::Subscribed),
        (Dispatch::Listening, Action::Wait { millis: 10 })
    );
    assert_eq!(Dispatch::Listening.step(Input::Released).0, Dispatch::Listening);
    assert_eq!(Dispatch::Stopping.step(Input::Tick { stop: false }), (Dispatch::Stopping, Action::Release));
    assert_eq!(Dispatch::Stopping.pending(), Action::Release);
}

#[test]
fn next_follows_the_order_of_registration() {
    for pair in ORDER.windows(2) {
        assert_eq!(pair[0].next(), Some(pair[1]));
    }
    assert_eq!(Signal::Resize.next(), None);
}

#[test]
fn failures_follow_the_policy() {
    assert_eq!(Failure::ConnectionLost.policy(), Policy::Terminate(Fatal::ConnectionLost));
    assert_eq!(
        Failure::Malformed(DecodeError::MissingField(2)).policy(),
        Policy::Terminate(Fatal::Contract(DecodeError::MissingField(2)))
    );
    assert_eq!(Failure::ChannelFull.policy(), Policy::Wait);
    assert_eq!(Failure::ChannelClosed.policy(), Policy::Ignore);
}

#[test]
fn well_formed_signal_is_forwarded() {
    let payload = vec![
        Value::Str("a1".to_string()),
        Value::Str("c1".to_string()),
        Value::UInt64(42),
        Value::Int32(3),
    ];
    match react::<()>("dataTransferEvent", payload) {
        Reaction::Forward(Event::DataTransferEvent(a, c, id, code)) => {
            assert_eq!((a.as_str(), c.as_str(), id, code), ("a1", "c1", 42, 3));
        }
        other => panic!("unexpected: {:?}", other),
    }
}

#[test]
fn malformed_message_is_contract_fatal() {
    let r = react::<()>("messageReceived", vec![Value::Str("a1".to_string())]);
    assert!(matches!(r, Reaction::Abort(Fatal::Contract(DecodeError::MissingField(1)))));
    let r = react::<()>(
        "messageReceived",
        vec![Value::Str("a".to_string()), Value::Str("c".to_string()), Value::Str("x".to_string())],
    );
    assert!(matches!(r, Reaction::Abort(Fatal::Contract(DecodeError::WrongKind(2)))));
    let r = react::<()>(
        "messageReceived",
        vec![Value::Str("a".to_string()), Value::Str("c".to_string()), Value::Dict(Dict::new())],
    );
    assert!(matches!(r, Reaction::Forward(Event::Message { .. })));
}

#[test]
fn unknown_signal_is_contract_fatal() {
    let r = react::<()>("volumeChanged", vec![]);
    assert!(matches!(r, Reaction::Abort(Fatal::Contract(DecodeError::UnknownSignal))));
}

#[test]
fn driver_loop_stops_at_the_first_tick_after_the_flag_is_set() {
    let stop = AtomicBool::new(false);
    let mut subscribed = Vec::new();
    let mut waits = 0u32;
    let mut released = 0u32;
    let (mut state, mut action) = Dispatch::start();
    let returned = loop {
        let input = match action {
            Action::Subscribe(signal) => {
                subscribed.push(signal);
                Input::Subscribed
            }
            Action::Wait { millis } => {
                assert_eq!(millis, 10);
                waits += 1;
                if waits == 3 {
                    stop.store(true, Ordering::Relaxed);
                }
                Input::Tick { stop: stop.load(Ordering::Relaxed) }
            }
            Action::Release => {
                released += 1;
                Input::Released
            }
            Action::Return => break true,
            Action::Abort(_) => break false,
        };
        let next = state.step(input);
        state = next.0;
        action = next.1;
    };
    assert!(returned);
    assert_eq!(subscribed, ORDER.to_vec());
    assert_eq!(waits, 3);
    assert_eq!(released, 1);
    assert_eq!(state, Dispatch::Stopped);
}

#[test]
fn driver_loop_aborts_when_a_subscription_is_refused() {
    let mut subscribed = 0u32;
    let (mut state, mut action) = Dispatch::start();
    let failure = loop {
        let input = match action {
            Action::Subscribe(_) => {
                subscribed += 1;
                if subscribed == 5 {
                    Input::Refused
                } else {
                    Input::Subscribed
                }
            }
            Action::Abort(fatal) => break Some(fatal),
            _ => break None,
        };
        let next = state.step(input);
        state = next.0;
        action = next.1;
    };
    assert_eq!(failure, Some(Fatal::SubscriptionRefused(Signal::ConversationRemoved)));
    assert_eq!(subscribed, 5);
}
