//! The typed events and the signals they are decoded from.

use crate::text::same_text;
use crate::wire::{check_shape, first_mismatch, has_shape, lemma_first_mismatch, Kind, Value};
use crate::dict::Dict;
use vstd::pervasive::unreached;
use vstd::prelude::*;

verus! {

/// What the consumer of the event stream receives: one variant for each
/// signal, and one for input that the consumer's own side injects.
#[derive(Debug)]
pub enum Event<I> {
    /// Input injected from outside the daemon.
    Input(I),
    /// A message arrived in a conversation.
    Message { account_id: String, conversation_id: String, payloads: Dict },
    /// A conversation is ready: account id, conversation id.
    ConversationReady(String, String),
    /// A conversation was removed: account id, conversation id.
    ConversationRemoved(String, String),
    /// A request to join a conversation arrived: account id, conversation
    /// id.
    ConversationRequest(String, String),
    /// The registration of an account changed: account id, new state.
    RegistrationStateChanged(String, String),
    /// A profile arrived: account id, sender id, path of the profile.
    ProfileReceived(String, String, String),
    /// A name lookup ended: account id, widened status code, address, name.
    RegisteredNameFound(String, u64, String, String),
    /// The list of accounts changed.
    AccountsChanged(),
    /// Messages of a conversation were loaded: request id, account id,
    /// conversation id, the messages in order.
    ConversationLoaded(u32, String, String, Vec<Dict>),
    /// A file transfer changed: account id, conversation id, transfer id,
    /// status code.
    DataTransferEvent(String, String, u64, i32),
    /// A trust request arrived: account id, sender id, payload, time of
    /// receipt.
    IncomingTrustRequest(String, String, Vec<u8>, u64),
    /// The interface was resized.
    Resize,
}

/// The signals that are turned into events: the daemon's broadcasts and the
/// interface's own resize notification.
#[derive(Clone, Copy, Debug, PartialEq, Eq, Structural)]
pub enum Signal {
    AccountsChanged,
    MessageReceived,
    RegistrationStateChanged,
    ConversationReady,
    ConversationRemoved,
    ConversationRequestReceived,
    RegisteredNameFound,
    ProfileReceived,
    IncomingTrustRequest,
    ConversationLoaded,
    DataTransferEvent,
    Resize,
}

/// Why a payload could not be turned into an event.
#[derive(Clone, Copy, Debug, PartialEq, Eq, Structural)]
pub enum DecodeError {
    /// The payload ends before the field at this position.
    MissingField(usize),
    /// The field at this position is of another kind than the signal has there.
    WrongKind(usize),
    /// No signal of the daemon has this name.
    UnknownSignal,
}

/// The status code of a name lookup widened to the event's unsigned field:
/// a negative code keeps its two's-complement pattern.
pub open spec fn widen_status(status: i32) -> u64 {
    if status >= 0 {
        status as u64
    } else {
        (status + 0x1_0000_0000_0000_0000) as u64
    }
}

/// The signed status code that an event's status field stands for, if it
/// stands for one.
pub open spec fn spec_signed_status(field: u64) -> Option<i32> {
    if field <= 0x7fff_ffff {
        Some(field as i32)
    } else if field >= 0xffff_ffff_8000_0000 {
        Some((field - 0x1_0000_0000_0000_0000) as i32)
    } else {
        None
    }
}

/// Widens a signed status code to the unsigned field of the event.
pub fn status_field(status: i32) -> (field: u64)
    ensures
        field == widen_status(status),
{
    if status >= 0 {
        status as u64
    } else {
        let below: u64 = (-(status + 1)) as u64;
        u64::MAX - below
    }
}

/// Recovers the signed status code from the unsigned field of an event;
/// `None` for a field that no status code widens to.
pub fn signed_status(field: u64) -> (status: Option<i32>)
    ensures
        status == spec_signed_status(field),
{
    if field <= 0x7fff_ffff {
        Some(field as i32)
    } else if field >= 0xffff_ffff_8000_0000 {
        let below: u64 = u64::MAX - field;
        Some(-1 - (below as i32))
    } else {
        None
    }
}

/// Widening loses nothing: the signed code, sign included, is recovered
/// from the field, and a negative code never widens to zero.
pub proof fn lemma_status_round_trip(status: i32)
    ensures
        spec_signed_status(widen_status(status)) == Some(status),
        status != 0 ==> widen_status(status) != 0,
        status < 0 ==> widen_status(status) > 0x7fff_ffff,
{
}

/// Two different status codes widen to two different fields.
pub proof fn lemma_status_injective(a: i32, b: i32)
    requires
        widen_status(a) == widen_status(b),
    ensures
        a == b,
{
    lemma_status_round_trip(a);
    lemma_status_round_trip(b);
}

impl Signal {
    /// The member name under which the bus carries this signal. The resize
    /// notification is raised by the interface itself; its name is local.
    pub open spec fn spec_member(self) -> Seq<char> {
        match self {
            Signal::AccountsChanged => "accountsChanged"@,
            Signal::MessageReceived => "messageReceived"@,
            Signal::RegistrationStateChanged => "registrationStateChanged"@,
            Signal::ConversationReady => "conversationReady"@,
            Signal::ConversationRemoved => "conversationRemoved"@,
            Signal::ConversationRequestReceived => "conversationRequestReceived"@,
            Signal::RegisteredNameFound => "registeredNameFound"@,
            Signal::ProfileReceived => "profileReceived"@,
            Signal::IncomingTrustRequest => "incomingTrustRequest"@,
            Signal::ConversationLoaded => "conversationLoaded"@,
            Signal::DataTransferEvent => "dataTransferEvent"@,
            Signal::Resize => "resize"@,
        }
    }

    /// The kinds of the fields that a payload of this signal starts with.
    pub open spec fn spec_shape(self) -> Seq<Kind> {
        match self {
            Signal::AccountsChanged => seq![],
            Signal::MessageReceived => seq![Kind::Str, Kind::Str, Kind::Dict],
            Signal::RegistrationStateChanged => seq![
                Kind::Str,
                Kind::Str,
                Kind::UInt64,
                Kind::Str,
            ],
            Signal::ConversationReady => seq![Kind::Str, Kind::Str],
            Signal::ConversationRemoved => seq![Kind::Str, Kind::Str],
            Signal::ConversationRequestReceived => seq![Kind::Str, Kind::Str],
            Signal::RegisteredNameFound => seq![Kind::Str, Kind::Int32, Kind::Str, Kind::Str],
            Signal::ProfileReceived => seq![Kind::Str, Kind::Str, Kind::Str],
            Signal::IncomingTrustRequest => seq![Kind::Str, Kind::Str, Kind::Bytes, Kind::UInt64],
            Signal::ConversationLoaded => seq![Kind::UInt32, Kind::Str, Kind::Str, Kind::DictList],
            Signal::DataTransferEvent => seq![Kind::Str, Kind::Str, Kind::UInt64, Kind::Int32],
            Signal::Resize => seq![],
        }
    }

    /// The member name under which the bus carries this signal.
    pub fn member(&self) -> (name: &'static str)
        ensures
            name@ == self.spec_member(),
    {
        match self {
            Signal::AccountsChanged => "accountsChanged",
            Signal::MessageReceived => "messageReceived",
            Signal::RegistrationStateChanged => "registrationStateChanged",
            Signal::ConversationReady => "conversationReady",
            Signal::ConversationRemoved => "conversationRemoved",
            Signal::ConversationRequestReceived => "conversationRequestReceived",
            Signal::RegisteredNameFound => "registeredNameFound",
            Signal::ProfileReceived => "profileReceived",
            Signal::IncomingTrustRequest => "incomingTrustRequest",
            Signal::ConversationLoaded => "conversationLoaded",
            Signal::DataTransferEvent => "dataTransferEvent",
            Signal::Resize => "resize",
        }
    }

    /// The kinds of the fields that a payload of this signal starts with.
    pub fn shape(&self) -> (shape: Vec<Kind>)
        ensures
            shape@ == self.spec_shape(),
    {
        let shape = match self {
            Signal::AccountsChanged => vec![],
            Signal::MessageReceived => vec![Kind::Str, Kind::Str, Kind::Dict],
            Signal::RegistrationStateChanged => vec![
                Kind::Str,
                Kind::Str,
                Kind::UInt64,
                Kind::Str,
            ],
            Signal::ConversationReady => vec![Kind::Str, Kind::Str],
            Signal::ConversationRemoved => vec![Kind::Str, Kind::Str],
            Signal::ConversationRequestReceived => vec![Kind::Str, Kind::Str],
            Signal::RegisteredNameFound => vec![Kind::Str, Kind::Int32, Kind::Str, Kind::Str],
            Signal::ProfileReceived => vec![Kind::Str, Kind::Str, Kind::Str],
            Signal::IncomingTrustRequest => vec![Kind::Str, Kind::Str, Kind::Bytes, Kind::UInt64],
            Signal::ConversationLoaded => vec![Kind::UInt32, Kind::Str, Kind::Str, Kind::DictList],
            Signal::DataTransferEvent => vec![Kind::Str, Kind::Str, Kind::UInt64, Kind::Int32],
            Signal::Resize => vec![],
        };
        assert(shape@ =~= self.spec_shape());
        shape
    }
}

/// The event that a payload of the signal's shape denotes: each field of the
/// event is the payload field at its position, the status of a name lookup
/// widened.
pub open spec fn spec_event<I>(signal: Signal, p: Seq<Value>) -> Event<I> {
    match signal {
        Signal::AccountsChanged => Event::AccountsChanged(),
        Signal::MessageReceived => Event::Message {
            account_id: p[0]->Str_0,
            conversation_id: p[1]->Str_0,
            payloads: p[2]->Dict_0,
        },
        Signal::RegistrationStateChanged => Event::RegistrationStateChanged(
            p[0]->Str_0,
            p[1]->Str_0,
        ),
        Signal::ConversationReady => Event::ConversationReady(p[0]->Str_0, p[1]->Str_0),
        Signal::ConversationRemoved => Event::ConversationRemoved(p[0]->Str_0, p[1]->Str_0),
        Signal::ConversationRequestReceived => Event::ConversationRequest(
            p[0]->Str_0,
            p[1]->Str_0,
        ),
        Signal::RegisteredNameFound => Event::RegisteredNameFound(
            p[0]->Str_0,
            widen_status(p[1]->Int32_0),
            p[2]->Str_0,
            p[3]->Str_0,
        ),
        Signal::ProfileReceived => Event::ProfileReceived(p[0]->Str_0, p[1]->Str_0, p[2]->Str_0),
        Signal::IncomingTrustRequest => Event::IncomingTrustRequest(
            p[0]->Str_0,
            p[1]->Str_0,
            p[2]->Bytes_0,
            p[3]->UInt64_0,
        ),
        Signal::ConversationLoaded => Event::ConversationLoaded(
            p[0]->UInt32_0,
            p[1]->Str_0,
            p[2]->Str_0,
            p[3]->DictList_0,
        ),
        Signal::DataTransferEvent => Event::DataTransferEvent(
            p[0]->Str_0,
            p[1]->Str_0,
            p[2]->UInt64_0,
            p[3]->Int32_0,
        ),
        Signal::Resize => Event::Resize,
    }
}

/// What decoding a payload of a signal gives: the event, on a payload whose
/// leading fields have the signal's shape; otherwise the first position that
/// is absent or of another kind.
pub open spec fn spec_decode<I>(signal: Signal, payload: Seq<Value>) -> Result<
    Event<I>,
    DecodeError,
> {
    match first_mismatch(payload, signal.spec_shape()) {
        None => Ok(spec_event(signal, payload)),
        Some(i) => if i >= payload.len() {
            Err(DecodeError::MissingField(i as usize))
        } else {
            Err(DecodeError::WrongKind(i as usize))
        },
    }
}

// Each of the following takes the last field off a payload whose last field
// is known to be of the kind asked for.

fn take_str(fields: &mut Vec<Value>) -> (s: String)
    requires
        old(fields)@.len() > 0,
        old(fields)@.last() is Str,
    ensures
        s == old(fields)@.last()->Str_0,
        final(fields)@ == old(fields)@.drop_last(),
{
    match fields.pop() {
        Some(Value::Str(s)) => s,
        _ => unreached(),
    }
}

fn take_u64(fields: &mut Vec<Value>) -> (n: u64)
    requires
        old(fields)@.len() > 0,
        old(fields)@.last() is UInt64,
    ensures
        n == old(fields)@.last()->UInt64_0,
        final(fields)@ == old(fields)@.drop_last(),
{
    match fields.pop() {
        Some(Value::UInt64(n)) => n,
        _ => unreached(),
    }
}

fn take_u32(fields: &mut Vec<Value>) -> (n: u32)
    requires
        old(fields)@.len() > 0,
        old(fields)@.last() is UInt32,
    ensures
        n == old(fields)@.last()->UInt32_0,
        final(fields)@ == old(fields)@.drop_last(),
{
    match fields.pop() {
        Some(Value::UInt32(n)) => n,
        _ => unreached(),
    }
}

fn take_i32(fields: &mut Vec<Value>) -> (n: i32)
    requires
        old(fields)@.len() > 0,
        old(fields)@.last() is Int32,
    ensures
        n == old(fields)@.last()->Int32_0,
        final(fields)@ == old(fields)@.drop_last(),
{
    match fields.pop() {
        Some(Value::Int32(n)) => n,
        _ => unreached(),
    }
}

fn take_bytes(fields: &mut Vec<Value>) -> (b: Vec<u8>)
    requires
        old(fields)@.len() > 0,
        old(fields)@.last() is Bytes,
    ensures
        b == old(fields)@.last()->Bytes_0,
        final(fields)@ == old(fields)@.drop_last(),
{
    match fields.pop() {
        Some(Value::Bytes(b)) => b,
        _ => unreached(),
    }
}

fn take_dict(fields: &mut Vec<Value>) -> (d: Dict)
    requires
        old(fields)@.len() > 0,
        old(fields)@.last() is Dict,
    ensures
        d == old(fields)@.last()->Dict_0,
        final(fields)@ == old(fields)@.drop_last(),
{
    match fields.pop() {
        Some(Value::Dict(d)) => d,
        _ => unreached(),
    }
}

fn take_dict_list(fields: &mut Vec<Value>) -> (d: Vec<Dict>)
    requires
        old(fields)@.len() > 0,
        old(fields)@.last() is DictList,
    ensures
        d == old(fields)@.last()->DictList_0,
        final(fields)@ == old(fields)@.drop_last(),
{
    match fields.pop() {
        Some(Value::DictList(d)) => d,
        _ => unreached(),
    }
}

/// Decodes the payload of a signal into its event.
///
/// The leading fields of the payload must have the signal's shape; fields
/// after them are not read. A payload that departs from the shape is
/// refused with the first position at which it does.
pub fn decode<I>(signal: Signal, payload: Vec<Value>) -> (r: Result<Event<I>, DecodeError>)
    ensures
        r == spec_decode::<I>(signal, payload@),
        r is Ok <==> has_shape(payload@, signal.spec_shape()),
{
    let shape = signal.shape();
    proof {
        lemma_first_mismatch(payload@, shape@);
    }
    match check_shape(&payload, &shape) {
        Some(i) => {
            if i >= payload.len() {
                Err(DecodeError::MissingField(i))
            } else {
                Err(DecodeError::WrongKind(i))
            }
        },
        None => {
            let mut fields = payload;
            fields.truncate(shape.len());
            assert(fields@ =~= payload@.take(shape@.len() as int));
            assert(forall|k: int| 0 <= k < shape@.len() ==> fields@[k] == payload@[k]);
            let event = match signal {
                Signal::AccountsChanged => Event::AccountsChanged(),
                Signal::MessageReceived => {
                    let payloads = take_dict(&mut fields);
                    let conversation_id = take_str(&mut fields);
                    let account_id = take_str(&mut fields);
                    Event::Message { account_id, conversation_id, payloads }
                },
                Signal::RegistrationStateChanged => {
                    let _details = take_str(&mut fields);
                    let _code = take_u64(&mut fields);
                    let state = take_str(&mut fields);
                    let account_id = take_str(&mut fields);
                    Event::RegistrationStateChanged(account_id, state)
                },
                Signal::ConversationReady => {
                    let conversation_id = take_str(&mut fields);
                    let account_id = take_str(&mut fields);
                    Event::ConversationReady(account_id, conversation_id)
                },
                Signal::ConversationRemoved => {
                    let conversation_id = take_str(&mut fields);
                    let account_id = take_str(&mut fields);
                    Event::ConversationRemoved(account_id, conversation_id)
                },
                Signal::ConversationRequestReceived => {
                    let conversation_id = take_str(&mut fields);
                    let account_id = take_str(&mut fields);
                    Event::ConversationRequest(account_id, conversation_id)
                },
                Signal::RegisteredNameFound => {
                    let name = take_str(&mut fields);
                    let address = take_str(&mut fields);
                    let status = take_i32(&mut fields);
                    let account_id = take_str(&mut fields);
                    Event::RegisteredNameFound(account_id, status_field(status), address, name)
                },
                Signal::ProfileReceived => {
                    let path = take_str(&mut fields);
                    let from = take_str(&mut fields);
                    let account_id = take_str(&mut fields);
                    Event::ProfileReceived(account_id, from, path)
                },
                Signal::IncomingTrustRequest => {
                    let receive_time = take_u64(&mut fields);
                    let payloads = take_bytes(&mut fields);
                    let from = take_str(&mut fields);
                    let account_id = take_str(&mut fields);
                    Event::IncomingTrustRequest(account_id, from, payloads, receive_time)
                },
                Signal::ConversationLoaded => {
                    let messages = take_dict_list(&mut fields);
                    let conversation_id = take_str(&mut fields);
                    let account_id = take_str(&mut fields);
                    let id = take_u32(&mut fields);
                    Event::ConversationLoaded(id, account_id, conversation_id, messages)
                },
                Signal::DataTransferEvent => {
                    let code = take_i32(&mut fields);
                    let id = take_u64(&mut fields);
                    let conversation_id = take_str(&mut fields);
                    let account_id = take_str(&mut fields);
                    Event::DataTransferEvent(account_id, conversation_id, id, code)
                },
                Signal::Resize => Event::Resize,
            };
            Ok(event)
        },
    }
}

/// The signal that a member name stands for, if it stands for one.
pub open spec fn spec_signal_named(name: Seq<char>) -> Option<Signal> {
    if name == "accountsChanged"@ {
        Some(Signal::AccountsChanged)
    } else if name == "messageReceived"@ {
        Some(Signal::MessageReceived)
    } else if name == "registrationStateChanged"@ {
        Some(Signal::RegistrationStateChanged)
    } else if name == "conversationReady"@ {
        Some(Signal::ConversationReady)
    } else if name == "conversationRemoved"@ {
        Some(Signal::ConversationRemoved)
    } else if name == "conversationRequestReceived"@ {
        Some(Signal::ConversationRequestReceived)
    } else if name == "registeredNameFound"@ {
        Some(Signal::RegisteredNameFound)
    } else if name == "profileReceived"@ {
        Some(Signal::ProfileReceived)
    } else if name == "incomingTrustRequest"@ {
        Some(Signal::IncomingTrustRequest)
    } else if name == "conversationLoaded"@ {
        Some(Signal::ConversationLoaded)
    } else if name == "dataTransferEvent"@ {
        Some(Signal::DataTransferEvent)
    } else if name == "resize"@ {
        Some(Signal::Resize)
    } else {
        None
    }
}

/// No two signals share a member name, and a name names the signal whose
/// member name it is.
pub proof fn lemma_member_names(signal: Signal)
    ensures
        spec_signal_named(signal.spec_member()) == Some(signal),
        forall|name: Seq<char>|
            spec_signal_named(name) == Some(signal) <==> name == signal.spec_member(),
{
    reveal_strlit("accountsChanged");
    reveal_strlit("messageReceived");
    reveal_strlit("registrationStateChanged");
    reveal_strlit("conversationReady");
    reveal_strlit("conversationRemoved");
    reveal_strlit("conversationRequestReceived");
    reveal_strlit("registeredNameFound");
    reveal_strlit("profileReceived");
    reveal_strlit("incomingTrustRequest");
    reveal_strlit("conversationLoaded");
    reveal_strlit("dataTransferEvent");
    reveal_strlit("resize");
    assert("accountsChanged"@.len() == 15 && "accountsChanged"@[0] == 'a');
    assert("messageReceived"@.len() == 15 && "messageReceived"@[0] == 'm');
    assert("registrationStateChanged"@.len() == 24 && "registrationStateChanged"@[0] == 'r');
    assert("conversationReady"@.len() == 17 && "conversationReady"@[0] == 'c');
    assert("conversationRemoved"@.len() == 19 && "conversationRemoved"@[0] == 'c');
    assert("conversationRequestReceived"@.len() == 27 && "conversationRequestReceived"@[0] == 'c');
    assert("registeredNameFound"@.len() == 19 && "registeredNameFound"@[0] == 'r');
    assert("profileReceived"@.len() == 15 && "profileReceived"@[0] == 'p');
    assert("incomingTrustRequest"@.len() == 20 && "incomingTrustRequest"@[0] == 'i');
    assert("conversationLoaded"@.len() == 18 && "conversationLoaded"@[0] == 'c');
    assert("dataTransferEvent"@.len() == 17 && "dataTransferEvent"@[0] == 'd');
    assert("resize"@.len() == 6 && "resize"@[0] == 'r');
}

impl Signal {
    /// Looks a signal up by the member name the bus delivered it under.
    pub fn from_member(name: &str) -> (r: Option<Signal>)
        ensures
            r == spec_signal_named(name@),
            r matches Some(signal) ==> name@ == signal.spec_member(),
            r is None ==> forall|signal: Signal| name@ != signal.spec_member(),
    {
        proof {
            assert forall|signal: Signal| spec_signal_named(name@) is None implies name@
                != signal.spec_member() by {
                lemma_member_names(signal);
            }
        }
        if same_text(name, "accountsChanged") {
            Some(Signal::AccountsChanged)
        } else if same_text(name, "messageReceived") {
            Some(Signal::MessageReceived)
        } else if same_text(name, "registrationStateChanged") {
            Some(Signal::RegistrationStateChanged)
        } else if same_text(name, "conversationReady") {
            Some(Signal::ConversationReady)
        } else if same_text(name, "conversationRemoved") {
            Some(Signal::ConversationRemoved)
        } else if same_text(name, "conversationRequestReceived") {
            Some(Signal::ConversationRequestReceived)
        } else if same_text(name, "registeredNameFound") {
            Some(Signal::RegisteredNameFound)
        } else if same_text(name, "profileReceived") {
            Some(Signal::ProfileReceived)
        } else if same_text(name, "incomingTrustRequest") {
            Some(Signal::IncomingTrustRequest)
        } else if same_text(name, "conversationLoaded") {
            Some(Signal::ConversationLoaded)
        } else if same_text(name, "dataTransferEvent") {
            Some(Signal::DataTransferEvent)
        } else if same_text(name, "resize") {
            Some(Signal::Resize)
        } else {
            None
        }
    }

    /// Whether the daemon broadcasts this signal over the bus; the resize
    /// notification alone is raised by the interface itself.
    pub fn is_broadcast(&self) -> (b: bool)
        ensures
            b == (*self != Signal::Resize),
    {
        match self {
            Signal::Resize => false,
            _ => true,
        }
    }
}

/// What decoding a payload delivered under a member name gives: the
/// decoding for the signal of that name, or the refusal of a name that no
/// signal has.
pub open spec fn spec_decode_named<I>(name: Seq<char>, payload: Seq<Value>) -> Result<
    Event<I>,
    DecodeError,
> {
    match spec_signal_named(name) {
        Some(signal) => spec_decode(signal, payload),
        None => Err(DecodeError::UnknownSignal),
    }
}

/// Decodes a payload that the bus delivered under a member name. A name
/// that no signal has is refused, whatever the payload holds.
pub fn decode_named<I>(name: &str, payload: Vec<Value>) -> (r: Result<Event<I>, DecodeError>)
    ensures
        r == spec_decode_named::<I>(name@, payload@),
{
    match Signal::from_member(name) {
        Some(signal) => decode(signal, payload),
        None => Err(DecodeError::UnknownSignal),
    }
}

impl<I> Event<I> {
    /// The signal that an event of this variant is decoded from; `None`
    /// for input, which no signal gives.
    pub open spec fn spec_origin(self) -> Option<Signal> {
        match self {
            Event::Input(_) => None,
            Event::Message { .. } => Some(Signal::MessageReceived),
            Event::ConversationReady(..) => Some(Signal::ConversationReady),
            Event::ConversationRemoved(..) => Some(Signal::ConversationRemoved),
            Event::ConversationRequest(..) => Some(Signal::ConversationRequestReceived),
            Event::RegistrationStateChanged(..) => Some(Signal::RegistrationStateChanged),
            Event::ProfileReceived(..) => Some(Signal::ProfileReceived),
            Event::RegisteredNameFound(..) => Some(Signal::RegisteredNameFound),
            Event::AccountsChanged() => Some(Signal::AccountsChanged),
            Event::ConversationLoaded(..) => Some(Signal::ConversationLoaded),
            Event::DataTransferEvent(..) => Some(Signal::DataTransferEvent),
            Event::IncomingTrustRequest(..) => Some(Signal::IncomingTrustRequest),
            Event::Resize => Some(Signal::Resize),
        }
    }

    /// The signal that an event of this variant is decoded from.
    pub fn origin(&self) -> (r: Option<Signal>)
        ensures
            r == self.spec_origin(),
    {
        match self {
            Event::Input(_) => None,
            Event::Message { .. } => Some(Signal::MessageReceived),
            Event::ConversationReady(..) => Some(Signal::ConversationReady),
            Event::ConversationRemoved(..) => Some(Signal::ConversationRemoved),
            Event::ConversationRequest(..) => Some(Signal::ConversationRequestReceived),
            Event::RegistrationStateChanged(..) => Some(Signal::RegistrationStateChanged),
            Event::ProfileReceived(..) => Some(Signal::ProfileReceived),
            Event::RegisteredNameFound(..) => Some(Signal::RegisteredNameFound),
            Event::AccountsChanged() => Some(Signal::AccountsChanged),
            Event::ConversationLoaded(..) => Some(Signal::ConversationLoaded),
            Event::DataTransferEvent(..) => Some(Signal::DataTransferEvent),
            Event::IncomingTrustRequest(..) => Some(Signal::IncomingTrustRequest),
            Event::Resize => Some(Signal::Resize),
        }
    }
}

/// Decoding is total on payloads of the signal's shape, and what it gives
/// is the one event of the signal's own variant, never input; under the
/// signal's member name the same event comes out.
pub proof fn lemma_decode_shaped<I>(signal: Signal, payload: Seq<Value>)
    requires
        has_shape(payload, signal.spec_shape()),
    ensures
        spec_decode::<I>(signal, payload) == Ok::<Event<I>, DecodeError>(
            spec_event(signal, payload),
        ),
        spec_event::<I>(signal, payload).spec_origin() == Some(signal),
        spec_decode_named::<I>(signal.spec_member(), payload) == spec_decode::<I>(
            signal,
            payload,
        ),
{
    lemma_first_mismatch(payload, signal.spec_shape());
    lemma_member_names(signal);
}

/// A payload that departs from the signal's shape gives no event: it is
/// refused at the first position that is absent or of another kind.
pub proof fn lemma_decode_unshaped<I>(signal: Signal, payload: Seq<Value>)
    requires
        !has_shape(payload, signal.spec_shape()),
    ensures
        spec_decode::<I>(signal, payload) is Err,
        spec_decode::<I>(signal, payload) matches Err(DecodeError::MissingField(i)) ==> i
            >= payload.len() && i < signal.spec_shape().len(),
        spec_decode::<I>(signal, payload) matches Err(DecodeError::WrongKind(i)) ==> i
            < payload.len() && i < signal.spec_shape().len() && payload[i as int].spec_kind()
            != signal.spec_shape()[i as int],
        !(spec_decode::<I>(signal, payload) matches Err(DecodeError::UnknownSignal)),
{
    lemma_first_mismatch(payload, signal.spec_shape());
}

/// The signals without payload decode whatever they are delivered with.
pub proof fn lemma_decode_unconditional<I>(payload: Seq<Value>)
    ensures
        spec_decode::<I>(Signal::AccountsChanged, payload) == Ok::<Event<I>, DecodeError>(
            Event::AccountsChanged(),
        ),
        spec_decode::<I>(Signal::Resize, payload) == Ok::<Event<I>, DecodeError>(Event::Resize),
{
    lemma_first_mismatch(payload, Signal::AccountsChanged.spec_shape());
    lemma_first_mismatch(payload, Signal::Resize.spec_shape());
}

} // verus!
