//! The listening state machine: which subscription to register next, when
//! to poll the stop flag, and how listening ends.
//!
//! The machine performs nothing itself. Its driver carries out each
//! [`Action`] on the bus and reports what happened as the next [`Input`].

use crate::event::{decode_named, spec_decode_named, DecodeError, Event, Signal};
use crate::wire::Value;
use vstd::prelude::*;

verus! {

/// Milliseconds between two looks at the stop flag.
pub const POLL_INTERVAL_MS: u64 = 10;

/// Number of subscriptions that listening rests on.
pub const SUBSCRIPTIONS: usize = 12;

/// A failure that ends the event stream for good.
#[derive(Clone, Copy, Debug, PartialEq, Eq, Structural)]
pub enum Fatal {
    /// The connection to the bus is gone.
    ConnectionLost,
    /// The bus refused the subscription to this signal.
    SubscriptionRefused(Signal),
    /// A payload did not have the shape of its signal.
    Contract(DecodeError),
}

/// Where the dispatch loop stands.
#[derive(Clone, Copy, Debug, PartialEq, Eq, Structural)]
pub enum Dispatch {
    /// Waiting for the subscription to this signal; those before it are
    /// active.
    Starting(Signal),
    /// Every subscription is active; the stop flag is being polled.
    Listening,
    /// The stop flag was seen; the subscriptions are being released.
    Stopping,
    /// The subscriptions are released.
    Stopped,
    /// Listening ended with a failure.
    Failed(Fatal),
}

/// What the driver reports to the machine.
#[derive(Clone, Copy, Debug, PartialEq, Eq, Structural)]
pub enum Input {
    /// The subscription asked for is active.
    Subscribed,
    /// The subscription asked for was refused.
    Refused,
    /// A poll interval has passed; `stop` is the stop flag as just read.
    Tick { stop: bool },
    /// The subscriptions have been released.
    Released,
    /// The connection to the bus is gone.
    ConnectionLost,
}

/// What the machine asks of the driver.
#[derive(Clone, Copy, Debug, PartialEq, Eq, Structural)]
pub enum Action {
    /// Register the subscription to this signal.
    Subscribe(Signal),
    /// Wait this many milliseconds, then read the stop flag.
    Wait { millis: u64 },
    /// Release every subscription.
    Release,
    /// Return to the caller: listening has ended in order.
    Return,
    /// Terminate the event stream with this failure.
    Abort(Fatal),
}

impl Signal {
    /// Position of the signal in the order of registration.
    pub open spec fn spec_index(self) -> nat {
        match self {
            Signal::AccountsChanged => 0,
            Signal::MessageReceived => 1,
            Signal::RegistrationStateChanged => 2,
            Signal::ConversationReady => 3,
            Signal::ConversationRemoved => 4,
            Signal::ConversationRequestReceived => 5,
            Signal::RegisteredNameFound => 6,
            Signal::ProfileReceived => 7,
            Signal::IncomingTrustRequest => 8,
            Signal::ConversationLoaded => 9,
            Signal::DataTransferEvent => 10,
            Signal::Resize => 11,
        }
    }

    /// The signal registered after this one, if any is left.
    pub open spec fn spec_next(self) -> Option<Signal> {
        match self {
            Signal::AccountsChanged => Some(Signal::MessageReceived),
            Signal::MessageReceived => Some(Signal::RegistrationStateChanged),
            Signal::RegistrationStateChanged => Some(Signal::ConversationReady),
            Signal::ConversationReady => Some(Signal::ConversationRemoved),
            Signal::ConversationRemoved => Some(Signal::ConversationRequestReceived),
            Signal::ConversationRequestReceived => Some(Signal::RegisteredNameFound),
            Signal::RegisteredNameFound => Some(Signal::ProfileReceived),
            Signal::ProfileReceived => Some(Signal::IncomingTrustRequest),
            Signal::IncomingTrustRequest => Some(Signal::ConversationLoaded),
            Signal::ConversationLoaded => Some(Signal::DataTransferEvent),
            Signal::DataTransferEvent => Some(Signal::Resize),
            Signal::Resize => None,
        }
    }

    /// The signal registered after this one, if any is left.
    pub fn next(&self) -> (r: Option<Signal>)
        ensures
            r == self.spec_next(),
            r matches Some(s) ==> s.spec_index() == self.spec_index() + 1,
            r is None <==> self.spec_index() + 1 == SUBSCRIPTIONS,
    {
        match self {
            Signal::AccountsChanged => Some(Signal::MessageReceived),
            Signal::MessageReceived => Some(Signal::RegistrationStateChanged),
            Signal::RegistrationStateChanged => Some(Signal::ConversationReady),
            Signal::ConversationReady => Some(Signal::ConversationRemoved),
            Signal::ConversationRemoved => Some(Signal::ConversationRequestReceived),
            Signal::ConversationRequestReceived => Some(Signal::RegisteredNameFound),
            Signal::RegisteredNameFound => Some(Signal::ProfileReceived),
            Signal::ProfileReceived => Some(Signal::IncomingTrustRequest),
            Signal::IncomingTrustRequest => Some(Signal::ConversationLoaded),
            Signal::ConversationLoaded => Some(Signal::DataTransferEvent),
            Signal::DataTransferEvent => Some(Signal::Resize),
            Signal::Resize => None,
        }
    }
}

impl Dispatch {
    /// What the machine waits for in this state: the action it issued on
    /// entering it.
    pub open spec fn spec_pending(self) -> Action {
        match self {
            Dispatch::Starting(signal) => Action::Subscribe(signal),
            Dispatch::Listening => Action::Wait { millis: POLL_INTERVAL_MS },
            Dispatch::Stopping => Action::Release,
            Dispatch::Stopped => Action::Return,
            Dispatch::Failed(fatal) => Action::Abort(fatal),
        }
    }

    /// The state that follows `self` on `input`.
    ///
    /// Losing the connection fails every state that has not ended. Apart
    /// from that each state answers to one kind of input and stays as it is
    /// on any other.
    pub open spec fn spec_step(self, input: Input) -> Dispatch {
        match (self, input) {
            (Dispatch::Stopped, _) => Dispatch::Stopped,
            (Dispatch::Failed(fatal), _) => Dispatch::Failed(fatal),
            (_, Input::ConnectionLost) => Dispatch::Failed(Fatal::ConnectionLost),
            (Dispatch::Starting(signal), Input::Subscribed) => match signal.spec_next() {
                Some(next) => Dispatch::Starting(next),
                None => Dispatch::Listening,
            },
            (Dispatch::Starting(signal), Input::Refused) => Dispatch::Failed(
                Fatal::SubscriptionRefused(signal),
            ),
            (Dispatch::Listening, Input::Tick { stop }) => if stop {
                Dispatch::Stopping
            } else {
                Dispatch::Listening
            },
            (Dispatch::Stopping, Input::Released) => Dispatch::Stopped,
            (state, _) => state,
        }
    }

    /// Number of subscriptions that are active in this state, as far as the
    /// state tells: all of them while listening, none once they are released.
    pub open spec fn spec_active(self) -> nat {
        match self {
            Dispatch::Starting(signal) => signal.spec_index(),
            Dispatch::Listening => SUBSCRIPTIONS as nat,
            Dispatch::Stopping => SUBSCRIPTIONS as nat,
            Dispatch::Stopped => 0,
            Dispatch::Failed(_) => 0,
        }
    }

    /// Whether listening has ended, in order or by failure.
    pub open spec fn spec_ended(self) -> bool {
        self is Stopped || self is Failed
    }

    /// The state in which listening begins, and the first action: no
    /// subscription is active yet, the first one is asked for.
    pub fn start() -> (r: (Dispatch, Action))
        ensures
            r.0 == Dispatch::Starting(Signal::AccountsChanged),
            r.1 == r.0.spec_pending(),
            r.0.spec_active() == 0,
    {
        (Dispatch::Starting(Signal::AccountsChanged), Action::Subscribe(Signal::AccountsChanged))
    }

    /// What the machine waits for in this state.
    pub fn pending(&self) -> (action: Action)
        ensures
            action == self.spec_pending(),
    {
        match self {
            Dispatch::Starting(signal) => Action::Subscribe(*signal),
            Dispatch::Listening => Action::Wait { millis: POLL_INTERVAL_MS },
            Dispatch::Stopping => Action::Release,
            Dispatch::Stopped => Action::Return,
            Dispatch::Failed(fatal) => Action::Abort(*fatal),
        }
    }

    /// Whether listening has ended, in order or by failure.
    pub fn ended(&self) -> (b: bool)
        ensures
            b == self.spec_ended(),
    {
        match self {
            Dispatch::Stopped => true,
            Dispatch::Failed(_) => true,
            _ => false,
        }
    }

    /// Takes one input and gives the next state with the action to carry
    /// out.
    pub fn step(self, input: Input) -> (r: (Dispatch, Action))
        ensures
            r.0 == self.spec_step(input),
            r.1 == r.0.spec_pending(),
    {
        let next = match (self, input) {
            (Dispatch::Stopped, _) => Dispatch::Stopped,
            (Dispatch::Failed(fatal), _) => Dispatch::Failed(fatal),
            (_, Input::ConnectionLost) => Dispatch::Failed(Fatal::ConnectionLost),
            (Dispatch::Starting(signal), Input::Subscribed) => match signal.next() {
                Some(next) => Dispatch::Starting(next),
                None => Dispatch::Listening,
            },
            (Dispatch::Starting(signal), Input::Refused) => Dispatch::Failed(
                Fatal::SubscriptionRefused(signal),
            ),
            (Dispatch::Listening, Input::Tick { stop }) => if stop {
                Dispatch::Stopping
            } else {
                Dispatch::Listening
            },
            (Dispatch::Stopping, Input::Released) => Dispatch::Stopped,
            (state, _) => state,
        };
        (next, next.pending())
    }
}

/// What can go wrong while events are streamed.
#[derive(Clone, Copy, Debug, PartialEq, Eq, Structural)]
pub enum Failure {
    /// The connection to the bus is gone.
    ConnectionLost,
    /// A payload did not have the shape of its signal.
    Malformed(DecodeError),
    /// The event channel has no room at the moment.
    ChannelFull,
    /// The consumer of the event channel is gone.
    ChannelClosed,
}

/// How a failure is dealt with.
#[derive(Clone, Copy, Debug, PartialEq, Eq, Structural)]
pub enum Policy {
    /// Terminate the event stream: nothing local can mend it.
    Terminate(Fatal),
    /// Keep the send waiting for room; nothing is reported.
    Wait,
    /// Let the send go: the stream is being shut down.
    Ignore,
}

impl Failure {
    /// How this failure is dealt with: a lost connection and a malformed
    /// payload are fatal, a full channel is waited out, a closed one is
    /// passed over.
    pub open spec fn spec_policy(self) -> Policy {
        match self {
            Failure::ConnectionLost => Policy::Terminate(Fatal::ConnectionLost),
            Failure::Malformed(error) => Policy::Terminate(Fatal::Contract(error)),
            Failure::ChannelFull => Policy::Wait,
            Failure::ChannelClosed => Policy::Ignore,
        }
    }

    /// How this failure is dealt with.
    pub fn policy(&self) -> (p: Policy)
        ensures
            p == self.spec_policy(),
            p is Terminate <==> (*self is ConnectionLost || *self is Malformed),
    {
        match self {
            Failure::ConnectionLost => Policy::Terminate(Fatal::ConnectionLost),
            Failure::Malformed(error) => Policy::Terminate(Fatal::Contract(*error)),
            Failure::ChannelFull => Policy::Wait,
            Failure::ChannelClosed => Policy::Ignore,
        }
    }
}

/// What a payload delivered under a member name leads to.
#[derive(Debug)]
pub enum Reaction<I> {
    /// Hand this event to a send of its own on the event channel. The send
    /// waits for room there by itself; the caller goes on at once.
    Forward(Event<I>),
    /// Terminate the event stream with this failure.
    Abort(Fatal),
}

/// The reaction to each outcome of decoding: an event is forwarded, a
/// refusal ends the stream as a breach of the payload contract.
pub open spec fn spec_react<I>(decoded: Result<Event<I>, DecodeError>) -> Reaction<I> {
    match decoded {
        Ok(event) => Reaction::Forward(event),
        Err(error) => Reaction::Abort(Fatal::Contract(error)),
    }
}

/// Decides what a payload that the bus delivered under a member name leads
/// to. Each delivery gives one reaction: the decoded event to forward, or a
/// fatal breach of the payload contract. Nothing is dropped and nothing is
/// replaced by a default. The decision does not look at the event channel,
/// so no state of the channel can hold it up.
pub fn react<I>(name: &str, payload: Vec<Value>) -> (r: Reaction<I>)
    ensures
        r == spec_react(spec_decode_named::<I>(name@, payload@)),
{
    match decode_named(name, payload) {
        Ok(event) => Reaction::Forward(event),
        Err(error) => Reaction::Abort(Fatal::Contract(error)),
    }
}

/// The state reached from `state` after the inputs of `inputs`, in order.
pub open spec fn run(state: Dispatch, inputs: Seq<Input>) -> Dispatch
    decreases inputs.len(),
{
    if inputs.len() == 0 {
        state
    } else {
        run(state, inputs.drop_last()).spec_step(inputs.last())
    }
}

/// Number of inputs in `inputs` that report an active subscription.
pub open spec fn subscribed_count(inputs: Seq<Input>) -> nat
    decreases inputs.len(),
{
    if inputs.len() == 0 {
        0
    } else {
        subscribed_count(inputs.drop_last()) + if inputs.last() is Subscribed {
            1nat
        } else {
            0nat
        }
    }
}

/// The first tick that reads the stop flag as set ends the polling: the
/// machine asks for the release of the subscriptions, not for another wait,
/// and the report of the release brings it to `Stopped`, where it returns.
pub proof fn lemma_stop_is_prompt()
    ensures
        Dispatch::Listening.spec_step(Input::Tick { stop: true }) == Dispatch::Stopping,
        Dispatch::Stopping.spec_pending() == Action::Release,
        Dispatch::Stopping.spec_step(Input::Released) == Dispatch::Stopped,
        Dispatch::Stopped.spec_pending() == Action::Return,
        run(Dispatch::Listening, seq![Input::Tick { stop: true }, Input::Released])
            == Dispatch::Stopped,
{
    let inputs = seq![Input::Tick { stop: true }, Input::Released];
    assert(inputs.drop_last() =~= seq![Input::Tick { stop: true }]);
    assert(inputs.drop_last().drop_last() =~= Seq::<Input>::empty());
    reveal_with_fuel(run, 3);
}

/// While the stop flag reads as unset and the connection holds, listening
/// goes on: the machine asks for another wait of one poll interval.
pub proof fn lemma_listening_persists(input: Input)
    requires
        input != (Input::Tick { stop: true }),
        input != Input::ConnectionLost,
    ensures
        Dispatch::Listening.spec_step(input) == Dispatch::Listening,
        Dispatch::Listening.spec_pending() == (Action::Wait { millis: POLL_INTERVAL_MS }),
{
}

/// Once the machine has left `Starting` it never comes back to it, and it
/// never again asks for a subscription, whatever inputs follow.
pub proof fn lemma_no_subscription_after_start(state: Dispatch, inputs: Seq<Input>)
    requires
        !(state is Starting),
    ensures
        !(run(state, inputs) is Starting),
        !(run(state, inputs).spec_pending() is Subscribe),
    decreases inputs.len(),
{
    if inputs.len() > 0 {
        lemma_no_subscription_after_start(state, inputs.drop_last());
    }
}

/// A state in which listening has ended stays as it is on every input.
pub proof fn lemma_ended_is_final(state: Dispatch, inputs: Seq<Input>)
    requires
        state.spec_ended(),
    ensures
        run(state, inputs) == state,
    decreases inputs.len(),
{
    if inputs.len() > 0 {
        lemma_ended_is_final(state, inputs.drop_last());
    }
}

/// Listening rests on every subscription: the machine counts a
/// subscription as active only on the report that it is, so from the start
/// it reaches `Listening` or `Stopping` only after twelve such reports, and
/// while starting it has counted no more than were reported.
pub proof fn lemma_listening_is_complete(inputs: Seq<Input>)
    ensures
        ({
            let state = run(Dispatch::Starting(Signal::AccountsChanged), inputs);
            (state is Starting || state is Listening || state is Stopping) ==> state.spec_active()
                <= subscribed_count(inputs)
        }),
    decreases inputs.len(),
{
    if inputs.len() > 0 {
        lemma_listening_is_complete(inputs.drop_last());
    }
}

} // verus!
