//! Requests to the daemon and the reading of its replies.
//!
//! The library never touches the bus. A request is handed to a function
//! supplied by the caller, which performs the call and gives back what the
//! daemon replied.

use crate::dict::Dict;
use crate::transfer::DataTransferInfo;
use crate::wire::{has_shape, Kind, Value};
use vstd::pervasive::unreached;
use vstd::prelude::*;

verus! {

/// Name under which the daemon is reached on the bus.
pub const DESTINATION: &'static str = "cx.ring.Ring";

/// Object path of the daemon's configuration manager.
pub const OBJECT_PATH: &'static str = "/cx/ring/Ring/ConfigurationManager";

/// Interface that carries the daemon's methods and signals.
pub const INTERFACE: &'static str = "cx.ring.Ring.ConfigurationManager";

/// Milliseconds after which a call without a reply counts as failed.
pub const CALL_TIMEOUT_MS: u64 = 5000;

/// One method call: the method's name and its positional arguments.
#[derive(Debug)]
pub struct Call {
    pub method: &'static str,
    pub args: Vec<Value>,
}

/// The call did not give a reply: the bus failed or the daemon refused.
#[derive(Clone, Copy, Debug, PartialEq, Eq, Structural)]
pub struct BusError;

/// What a call came back with: the positional fields of the reply.
pub type Reply = Result<Vec<Value>, BusError>;

/// Whether `bus` can be handed every call.
pub open spec fn serves_all<B: Fn(Call) -> Reply>(bus: &B) -> bool {
    forall|call: Call| call_requires(*bus, (call,))
}

/// Whether `reply` is what `bus` gave back when it was handed the call of
/// `method` with `args`.
pub open spec fn asked<B: Fn(Call) -> Reply>(
    bus: &B,
    method: Seq<char>,
    args: Seq<Value>,
    reply: Reply,
) -> bool {
    exists|call: Call|
        call.method@ == method && call.args@ == args && #[trigger] call_ensures(
            *bus,
            (call,),
            reply,
        )
}

/// The first field of a reply, where the call gave a reply and its first
/// field is of the kind `kind`.
pub open spec fn spec_first(reply: Reply, kind: Kind) -> Option<Value> {
    match reply {
        Ok(fields) => if fields@.len() >= 1 && fields@[0].spec_kind() == kind {
            Some(fields@[0])
        } else {
            None
        },
        Err(_) => None,
    }
}

/// Takes the first field out of a reply if it is of the kind `kind`.
pub fn first(reply: Reply, kind: Kind) -> (r: Option<Value>)
    ensures
        r == spec_first(reply, kind),
{
    match reply {
        Ok(fields) => {
            let mut fields = fields;
            if fields.len() >= 1 && fields[0].kind() == kind {
                fields.truncate(1);
                fields.pop()
            } else {
                None
            }
        },
        Err(_) => None,
    }
}

/// Performs the call of `method` with `args` through `bus`.
pub fn ask<B: Fn(Call) -> Reply>(bus: &B, method: &'static str, args: Vec<Value>) -> (reply: Reply)
    requires
        serves_all(bus),
    ensures
        asked(bus, method@, args@, reply),
{
    let call = Call { method, args };
    bus(call)
}

/// The truth value that a reply stands for: its first field where that
/// is a truth value, `false` for every other reply and for a failed call.
pub open spec fn spec_flag(reply: Reply) -> bool {
    match spec_first(reply, Kind::Bool) {
        Some(value) => value->Bool_0,
        None => false,
    }
}

/// The number that a reply stands for: its first field where that is an
/// unsigned 32-bit number, `0` for every other reply and for a failed call.
pub open spec fn spec_count(reply: Reply) -> u32 {
    match spec_first(reply, Kind::UInt32) {
        Some(value) => value->UInt32_0,
        None => 0,
    }
}

/// The number that a reply stands for: its first field where that is an
/// unsigned 64-bit number, `0` for every other reply and for a failed call.
pub open spec fn spec_ident(reply: Reply) -> u64 {
    match spec_first(reply, Kind::UInt64) {
        Some(value) => value->UInt64_0,
        None => 0,
    }
}

/// Reads a reply as a truth value; `false` where it holds none.
pub fn flag(reply: Reply) -> (r: bool)
    ensures
        r == spec_flag(reply),
{
    match first(reply, Kind::Bool) {
        Some(Value::Bool(b)) => b,
        _ => false,
    }
}

/// Reads a reply as an unsigned 32-bit number; `0` where it holds none.
pub fn count(reply: Reply) -> (r: u32)
    ensures
        r == spec_count(reply),
{
    match first(reply, Kind::UInt32) {
        Some(Value::UInt32(n)) => n,
        _ => 0,
    }
}

/// Reads a reply as an unsigned 64-bit number; `0` where it holds none.
pub fn ident(reply: Reply) -> (r: u64)
    ensures
        r == spec_ident(reply),
{
    match first(reply, Kind::UInt64) {
        Some(Value::UInt64(n)) => n,
        _ => 0,
    }
}

/// Whether `r` is the string that `reply` stands for: its first field
/// where that is a string, an empty string for every other reply and for a
/// failed call.
pub open spec fn is_text_of(r: String, reply: Reply) -> bool {
    match spec_first(reply, Kind::Str) {
        Some(value) => r == value->Str_0,
        None => r@.len() == 0,
    }
}

/// Whether `r` is the list of strings that `reply` stands for: its first
/// field where that is one, an empty list for every other reply and for a
/// failed call.
pub open spec fn is_list_of(r: Vec<String>, reply: Reply) -> bool {
    match spec_first(reply, Kind::StrList) {
        Some(value) => r == value->StrList_0,
        None => r@.len() == 0,
    }
}

/// Whether `r` is the mapping that `reply` stands for: its first field
/// where that is one, an empty mapping for every other reply and for a
/// failed call.
pub open spec fn is_dict_of(r: Dict, reply: Reply) -> bool {
    match spec_first(reply, Kind::Dict) {
        Some(value) => r == value->Dict_0,
        None => r@ == Map::<Seq<char>, Seq<char>>::empty(),
    }
}

/// Whether `r` is the list of mappings that `reply` stands for: its first
/// field where that is one, an empty list for every other reply and for a
/// failed call.
pub open spec fn is_dicts_of(r: Vec<Dict>, reply: Reply) -> bool {
    match spec_first(reply, Kind::DictList) {
        Some(value) => r == value->DictList_0,
        None => r@.len() == 0,
    }
}

/// Reads a reply as a string; the empty string where it holds none.
pub fn text(reply: Reply) -> (r: String)
    ensures
        is_text_of(r, reply),
{
    match first(reply, Kind::Str) {
        Some(Value::Str(s)) => s,
        Some(_) => unreached(),
        None => String::new(),
    }
}

/// Reads a reply as a list of strings; the empty list where it holds none.
pub fn list(reply: Reply) -> (r: Vec<String>)
    ensures
        is_list_of(r, reply),
{
    match first(reply, Kind::StrList) {
        Some(Value::StrList(l)) => l,
        Some(_) => unreached(),
        None => Vec::new(),
    }
}

/// Reads a reply as a mapping; the empty mapping where it holds none.
pub fn dict(reply: Reply) -> (r: Dict)
    ensures
        is_dict_of(r, reply),
{
    match first(reply, Kind::Dict) {
        Some(Value::Dict(d)) => d,
        Some(_) => unreached(),
        None => Dict::new(),
    }
}

/// Reads a reply as a list of mappings; the empty list where it holds
/// none.
pub fn dicts(reply: Reply) -> (r: Vec<Dict>)
    ensures
        is_dicts_of(r, reply),
{
    match first(reply, Kind::DictList) {
        Some(Value::DictList(l)) => l,
        Some(_) => unreached(),
        None => Vec::new(),
    }
}

/// The transfer record that a reply carries: the record of its second
/// field, where the reply starts with a status code and a transfer tuple.
pub open spec fn spec_transfer(reply: Reply) -> Option<DataTransferInfo> {
    match reply {
        Ok(fields) => if has_shape(fields@, seq![Kind::UInt32, Kind::Transfer]) {
            Some(DataTransferInfo::spec_from_tuple(fields@[1]->Transfer_0))
        } else {
            None
        },
        Err(_) => None,
    }
}

/// Reads a reply as a transfer record; `None` for a reply of another shape
/// and for a failed call.
pub fn transfer(reply: Reply) -> (r: Option<DataTransferInfo>)
    ensures
        r == spec_transfer(reply),
{
    match reply {
        Ok(fields) => {
            let mut fields = fields;
            if fields.len() >= 2 && fields[0].kind() == Kind::UInt32 && fields[1].kind()
                == Kind::Transfer {
                fields.truncate(2);
                match fields.pop() {
                    Some(Value::Transfer(tuple)) => Some(DataTransferInfo::from_tuple(tuple)),
                    _ => unreached(),
                }
            } else {
                proof {
                    let shape = seq![Kind::UInt32, Kind::Transfer];
                    if has_shape(fields@, shape) {
                        assert(fields@[0].spec_kind() == shape[0]);
                        assert(fields@[1].spec_kind() == shape[1]);
                    }
                }
                None
            }
        },
        Err(_) => None,
    }
}

} // verus!
