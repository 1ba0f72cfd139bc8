use jami::bus::{count, dict, dicts, first, flag, ident, list, text, transfer};
use jami::bus::{CALL_TIMEOUT_MS, DESTINATION, INTERFACE, OBJECT_PATH};
use jami::{Account, BusError, Call, Dict, ImportType, Jami, Kind, Reply, Value};
use std::cell::RefCell;

fn show(v: &Value) -> String {
    match v {
        Value::Bool(b) => format!("b:{}", b),
        Value::Int32(n) => format!("i:{}", n),
        Value::UInt32(n) => format!("u:{}", n),
        Value::Int64(n) => format!("x:{}", n),
        Value::UInt64(n) => format!("t:{}", n),
        Value::Str(s) => format!("s:{}", s),
        Value::Bytes(b) => format!("ay:{:?}", b),
        Value::StrList(l) => format!("as:{:?}", l),
        Value::Dict(d) => {
            let mut e: Vec<String> = d.entries().iter().map(|(k, v)| format!("{}={}", k, v)).collect();
            e.sort();
            format!("d:{}", e.join(","))
        }
        Value::DictList(l) => format!("ad:{}", l.len()),
        Value::Transfer(t) => format!("r:{:?}", t),
    }
}

fn line(call: &Call) -> String {
    let args: Vec<String> = call.args.iter().map(show).collect();
    format!("{}({})", call.method, args.join(";"))
}

fn dict_of(pairs: &[(&str, &str)]) -> Dict {
    let mut d = Dict::new();
    for (k, v) in pairs {
        d.insert(k.to_string(), v.to_string());
    }
    d
}

fn st(s: &str) -> String {
    s.to_string()
}

#[test]
fn bus_names_are_the_daemons() {
    assert_eq!(DESTINATION, "cx.ring.Ring");
    assert_eq!(OBJECT_PATH, "/cx/ring/Ring/ConfigurationManager");
    assert_eq!(INTERFACE, "cx.ring.Ring.ConfigurationManager");
    assert_eq!(CALL_TIMEOUT_MS, 5000);
}

#[test]
fn readers_take_the_first_field() {
    assert!(flag(Ok(vec![Value::Bool(true)])));
    assert!(!flag(Ok(vec![Value::Bool(false)])));
    assert_eq!(count(Ok(vec![Value::UInt32(7)])), 7);
    assert_eq!(ident(Ok(vec![Value::UInt64(u64::MAX)])), u64::MAX);
    assert_eq!(text(Ok(vec![Value::Str(st("id"))])), "id");
    assert_eq!(list(Ok(vec![Value::StrList(vec![st("a"), st("b")])])), vec!["a", "b"]);
    assert_eq!(dict(Ok(vec![Value::Dict(dict_of(&[("k", "v")]))])).get("k").map(|s| s.as_str()), Some("v"));
    assert_eq!(dicts(Ok(vec![Value::DictList(vec![Dict::new(), Dict::new()])])).len(), 2);
    assert!(flag(Ok(vec![Value::Bool(true), Value::Str(st("more"))])));
}

#[test]
fn readers_give_the_empty_answer_on_failure() {
    assert!(!flag(Err(BusError)));
    assert_eq!(count(Err(BusError)), 0);
    assert_eq!(ident(Err(BusError)), 0);
    assert_eq!(text(Err(BusError)), "");
    assert!(list(Err(BusError)).is_empty());
    assert_eq!(dict(Err(BusError)).len(), 0);
    assert!(dicts(Err(BusError)).is_empty());
    assert!(transfer(Err(BusError)).is_none());
    assert!(first(Err(BusError), Kind::Bool).is_none());
}

#[test]
fn readers_give_the_empty_answer_on_another_shape() {
    assert!(!flag(Ok(vec![])));
    assert!(!flag(Ok(vec![Value::UInt32(1)])));
    assert_eq!(count(Ok(vec![Value::UInt64(5)])), 0);
    assert_eq!(ident(Ok(vec![Value::UInt32(5)])), 0);
    assert_eq!(text(Ok(vec![Value::Bool(true), Value::Str(st("x"))])), "");
    assert!(list(Ok(vec![Value::Str(st("x"))])).is_empty());
    assert_eq!(dict(Ok(vec![Value::DictList(vec![])])).len(), 0);
    assert!(dicts(Ok(vec![Value::Dict(Dict::new())])).is_empty());
    assert!(transfer(Ok(vec![Value::UInt32(0)])).is_none());
    assert!(transfer(Ok(vec![Value::Transfer(jami::DataTransferInfo::blank().tuple())])).is_none());
}

#[test]
fn transfer_reader_takes_the_second_field() {
    let mut info = jami::DataTransferInfo::blank();
    info.total = 100;
    info.bytes_progress = 25;
    info.path = st("/tmp/f");
    let r = transfer(Ok(vec![Value::UInt32(0), Value::Transfer(info.tuple())])).unwrap();
    assert_eq!(r.total, 100);
    assert_eq!(r.bytes_progress, 25);
    assert_eq!(r.path, "/tmp/f");
}

#[test]
fn lookup_name_asks_and_reads_a_flag() {
    let seen = RefCell::new(Vec::new());
    let bus = |call: Call| -> Reply {
        seen.borrow_mut().push(line(&call));
        Ok(vec![Value::Bool(true)])
    };
    assert!(Jami::lookup_name(&bus, &st("acc"), &st("ns"), &st("alice")));
    assert!(Jami::lookup_address(&bus, &st("acc"), &st("ns"), &st("ff00")));
    assert_eq!(
        *seen.borrow(),
        vec!["lookupName(s:acc;s:ns;s:alice)", "lookupAddress(s:acc;s:ns;s:ff00)"]
    );
    let down = |_: Call| -> Reply { Err(BusError) };
    assert!(!Jami::lookup_name(&down, &st("acc"), &st("ns"), &st("alice")));
    assert!(!Jami::lookup_address(&down, &st("acc"), &st("ns"), &st("ff00")));
}

#[test]
fn requests_without_answer_hand_over_their_arguments() {
    let seen = RefCell::new(Vec::new());
    let bus = |call: Call| -> Reply {
        seen.borrow_mut().push(line(&call));
        Err(BusError)
    };
    Jami::rm_account(&bus, "acc");
    Jami::set_account_details(&bus, "acc", dict_of(&[("a", "b")]));
    Jami::add_contact(&bus, &st("acc"), &st("uri"));
    Jami::send_trust_request(&bus, &st("acc"), &st("to"), vec![1, 2, 3]);
    Jami::update_conversation_infos(&bus, &st("acc"), &st("conv"), dict_of(&[("title", "t")]));
    Jami::decline_request(&bus, &st("acc"), &st("conv"));
    Jami::accept_request(&bus, &st("acc"), &st("conv"));
    Jami::add_conversation_member(&bus, &st("acc"), &st("conv"), &st("hash"));
    Jami::rm_conversation_member(&bus, &st("acc"), &st("conv"), &st("hash"));
    assert_eq!(
        *seen.borrow(),
        vec![
            "removeAccount(s:acc)",
            "setAccountDetails(s:acc;d:a=b)",
            "addContact(s:acc;s:uri)",
            "sendTrustRequest(s:acc;s:to;ay:[1, 2, 3])",
            "updateConversationInfos(s:acc;s:conv;d:title=t)",
            "declineConversationRequest(s:acc;s:conv)",
            "acceptConversationRequest(s:acc;s:conv)",
            "addConversationMember(s:acc;s:conv;s:hash)",
            "rmConversationMember(s:acc;s:conv;s:hash)",
        ]
    );
}

#[test]
fn flag_requests_read_the_reply() {
    let seen = RefCell::new(Vec::new());
    let bus = |call: Call| -> Reply {
        seen.borrow_mut().push(line(&call));
        Ok(vec![Value::Bool(call.method != "removeConversation")])
    };
    assert!(Jami::accept_trust_request(&bus, &st("acc"), &st("from")));
    assert!(Jami::discard_trust_request(&bus, &st("acc"), &st("from")));
    assert!(!Jami::rm_conversation(&bus, &st("acc"), &st("conv")));
    assert_eq!(
        *seen.borrow(),
        vec![
            "acceptTrustRequest(s:acc;s:from)",
            "discardTrustRequest(s:acc;s:from)",
            "removeConversation(s:acc;s:conv)",
        ]
    );
    let down = |_: Call| -> Reply { Err(BusError) };
    assert!(!Jami::accept_trust_request(&down, &st("acc"), &st("from")));
    assert!(!Jami::discard_trust_request(&down, &st("acc"), &st("from")));
    assert!(!Jami::rm_conversation(&down, &st("acc"), &st("conv")));
}

#[test]
fn conversation_requests_read_the_reply() {
    let seen = RefCell::new(Vec::new());
    let bus = |call: Call| -> Reply {
        seen.borrow_mut().push(line(&call));
        match call.method {
            "getConversationMembers" | "getConversationRequests" => {
                Ok(vec![Value::DictList(vec![dict_of(&[("uri", "m1")]), dict_of(&[("uri", "m2")])])])
            }
            "conversationInfos" => Ok(vec![Value::Dict(dict_of(&[("title", "t")]))]),
            "startConversation" => Ok(vec![Value::Str(st("newconv"))]),
            "getConversations" => Ok(vec![Value::StrList(vec![st("c1"), st("c2")])]),
            "loadConversationMessages" => Ok(vec![Value::UInt32(17)]),
            "sendMessage" => Ok(vec![Value::UInt64(99)]),
            _ => Err(BusError),
        }
    };
    let members = Jami::get_members(&bus, &st("acc"), &st("conv"));
    assert_eq!(members.len(), 2);
    assert_eq!(members[1].get("uri").map(|s| s.as_str()), Some("m2"));
    assert_eq!(Jami::get_conversation_infos(&bus, &st("acc"), &st("conv")).get("title").map(|s| s.as_str()), Some("t"));
    assert_eq!(Jami::start_conversation(&bus, &st("acc")), "newconv");
    assert_eq!(Jami::get_conversations(&bus, &st("acc")), vec!["c1", "c2"]);
    assert_eq!(Jami::get_conversations_requests(&bus, &st("acc")).len(), 2);
    assert_eq!(Jami::load_conversation(&bus, &st("acc"), &st("conv"), &st(""), 0), 17);
    assert_eq!(Jami::send_conversation_message(&bus, &st("acc"), &st("conv"), &st("hi"), &st("p")), 99);
    assert_eq!(
        *seen.borrow(),
        vec![
            "getConversationMembers(s:acc;s:conv)",
            "conversationInfos(s:acc;s:conv)",
            "startConversation(s:acc)",
            "getConversations(s:acc)",
            "getConversationRequests(s:acc)",
            "loadConversationMessages(s:acc;s:conv;s:;u:0)",
            "sendMessage(s:acc;s:conv;s:hi;s:p)",
        ]
    );
}

#[test]
fn conversation_requests_default_on_failure() {
    let down = |_: Call| -> Reply { Err(BusError) };
    assert!(Jami::get_members(&down, &st("a"), &st("c")).is_empty());
    assert_eq!(Jami::get_conversation_infos(&down, &st("a"), &st("c")).len(), 0);
    assert_eq!(Jami::start_conversation(&down, &st("a")), "");
    assert!(Jami::get_conversations(&down, &st("a")).is_empty());
    assert!(Jami::get_conversations_requests(&down, &st("a")).is_empty());
    assert_eq!(Jami::load_conversation(&down, &st("a"), &st("c"), &st("x"), 5), 0);
    assert_eq!(Jami::send_conversation_message(&down, &st("a"), &st("c"), &st("m"), &st("")), 0);
    assert_eq!(Jami::get_account_details(&down, "a").len(), 0);
    assert_eq!(Jami::add_account(&down, "x", "y", ImportType::NONE), "");
    assert!(Jami::get_trust_requests(&down, &st("a")).is_empty());
    assert_eq!(Jami::accept_file_transfer(&down, &st("a"), &st("c"), 1, &st("/p")), 0);
    assert_eq!(Jami::cancel_file_transfer(&down, &st("a"), &st("c"), 1), 0);
    assert!(Jami::data_transfer_info(&down, st("a"), st("c"), 1).is_none());
    assert!(Jami::get_account_list(&down).is_empty());
}

#[test]
fn add_account_describes_the_account() {
    let seen = RefCell::new(Vec::new());
    let bus = |call: Call| -> Reply {
        seen.borrow_mut().push(line(&call));
        Ok(vec![Value::Str(st("newid"))])
    };
    assert_eq!(Jami::add_account(&bus, "Alice", "pw", ImportType::NONE), "newid");
    assert_eq!(Jami::add_account(&bus, "/a.gz", "pw", ImportType::BACKUP), "newid");
    assert_eq!(Jami::add_account(&bus, "1234", "", ImportType::NETWORK), "newid");
    assert_eq!(
        *seen.borrow(),
        vec![
            "addAccount(d:Account.alias=Alice,Account.archivePassword=pw,Account.type=RING)",
            "addAccount(d:Account.archivePassword=pw,Account.archivePath=/a.gz,Account.type=RING)",
            "addAccount(d:Account.archivePassword=,Account.archivePin=1234,Account.type=RING)",
        ]
    );
}

#[test]
fn get_account_builds_the_account_from_the_details() {
    let seen = RefCell::new(Vec::new());
    let bus = |call: Call| -> Reply {
        seen.borrow_mut().push(line(&call));
        Ok(vec![Value::Dict(dict_of(&[
            ("Account.enable", "true"),
            ("Account.alias", "Alice"),
            ("Account.username", "ring:abcd"),
            ("Account.registeredName", "alice"),
        ]))])
    };
    let a = Jami::get_account(&bus, "id1");
    assert_eq!((a.id.as_str(), a.hash.as_str(), a.alias.as_str(), a.registered_name.as_str(), a.enabled), ("id1", "abcd", "Alice", "alice", true));
    assert_eq!(*seen.borrow(), vec!["getAccountDetails(s:id1)"]);
    assert_eq!(Jami::get_account_details(&bus, "id1").len(), 4);
}

#[test]
fn get_account_gives_the_null_account_on_failure() {
    let down = |_: Call| -> Reply { Err(BusError) };
    let a = Jami::get_account(&down, "id1");
    assert_eq!((a.id.as_str(), a.hash.as_str(), a.alias.as_str(), a.registered_name.as_str(), a.enabled), ("", "", "", "", false));
    let odd = |_: Call| -> Reply { Ok(vec![Value::Str(st("x"))]) };
    let a = Jami::get_account(&odd, "id1");
    assert_eq!(a.id, "");
    let a = Jami::account_from_reply("id1", Ok(vec![Value::Dict(Dict::new())]));
    assert_eq!(a.id, "id1");
}

fn daemon_with(enabled: &'static [bool]) -> impl Fn(Call) -> Reply {
    move |call: Call| -> Reply {
        match call.method {
            "getAccountList" => Ok(vec![Value::StrList((0..enabled.len()).map(|i| format!("acc{}", i)).collect())]),
            "getAccountDetails" => {
                let id = match &call.args[0] {
                    Value::Str(s) => s.clone(),
                    _ => return Err(BusError),
                };
                let n: usize = id[3..].parse().unwrap();
                Ok(vec![Value::Dict(dict_of(&[
                    ("Account.enable", if enabled[n] { "true" } else { "false" }),
                    ("Account.alias", &format!("alias{}", n)),
                ]))])
            }
            _ => Err(BusError),
        }
    }
}

#[test]
fn get_account_list_fetches_each_account_in_order() {
    let bus = daemon_with(&[false, true, true]);
    let accounts = Jami::get_account_list(&bus);
    let ids: Vec<&str> = accounts.iter().map(|a| a.id.as_str()).collect();
    assert_eq!(ids, vec!["acc0", "acc1", "acc2"]);
    let enabled: Vec<bool> = accounts.iter().map(|a| a.enabled).collect();
    assert_eq!(enabled, vec![false, true, true]);
    assert_eq!(accounts[2].alias, "alias2");
}

#[test]
fn select_takes_the_first_enabled_account() {
    let bus = daemon_with(&[false, true, true]);
    let a: Account = Jami::select_jami_account(&bus, true);
    assert_eq!(a.id, "acc1");
    assert!(a.enabled);
    assert_eq!(a.alias, "alias1");
}

#[test]
fn select_creates_an_account_only_when_asked_and_needed() {
    let seen = RefCell::new(Vec::new());
    let inner = daemon_with(&[false, false]);
    let bus = |call: Call| -> Reply {
        seen.borrow_mut().push(line(&call));
        inner(call)
    };
    let a = Jami::select_jami_account(&bus, false);
    assert_eq!(a.id, "");
    assert!(!a.enabled);
    assert!(!seen.borrow().iter().any(|l| l.starts_with("addAccount")));
    seen.borrow_mut().clear();
    let a = Jami::select_jami_account(&bus, true);
    assert_eq!(a.id, "");
    assert_eq!(
        seen.borrow().last().map(|s| s.as_str()),
        Some("addAccount(d:Account.alias=,Account.archivePassword=,Account.type=RING)")
    );
    seen.borrow_mut().clear();
    let enabled = daemon_with(&[true]);
    let bus2 = |call: Call| -> Reply {
        seen.borrow_mut().push(line(&call));
        enabled(call)
    };
    let a = Jami::select_jami_account(&bus2, true);
    assert_eq!(a.id, "acc0");
    assert!(!seen.borrow().iter().any(|l| l.starts_with("addAccount")));
}

#[test]
fn get_trust_requests_lists_the_senders() {
    let seen = RefCell::new(Vec::new());
    let bus = |call: Call| -> Reply {
        seen.borrow_mut().push(line(&call));
        Ok(vec![Value::DictList(vec![
            dict_of(&[("from", "alice")]),
            dict_of(&[("payload", "x")]),
            dict_of(&[("from", "bob")]),
        ])])
    };
    assert_eq!(Jami::get_trust_requests(&bus, &st("acc")), vec!["alice", "bob"]);
    assert_eq!(*seen.borrow(), vec!["getTrustRequests(s:acc)"]);
}

#[test]
fn send_file_offers_the_file_and_returns_zero() {
    let seen = RefCell::new(Vec::new());
    let bus = |call: Call| -> Reply {
        seen.borrow_mut().push(line(&call));
        Ok(vec![Value::UInt64(77)])
    };
    assert_eq!(Jami::send_file(&bus, st("acc"), st("conv"), st("/tmp/f")), 0);
    assert_eq!(
        *seen.borrow(),
        vec!["sendFile(r:(\"acc\", 0, 0, 0, 0, \"\", \"\", \"conv\", \"\", \"/tmp/f\", \"\");t:0)"]
    );
}

#[test]
fn file_transfer_requests_read_the_status() {
    let seen = RefCell::new(Vec::new());
    let bus = |call: Call| -> Reply {
        seen.borrow_mut().push(line(&call));
        Ok(vec![Value::UInt32(4)])
    };
    assert_eq!(Jami::accept_file_transfer(&bus, &st("acc"), &st("conv"), 12, &st("/tmp/f")), 4);
    assert_eq!(Jami::cancel_file_transfer(&bus, &st("acc"), &st("conv"), 12), 4);
    assert_eq!(
        *seen.borrow(),
        vec![
            "acceptFileTransfer(s:acc;s:conv;t:12;s:/tmp/f;x:0)",
            "cancelDataTransfer(s:acc;s:conv;t:12)",
        ]
    );
}

#[test]
fn data_transfer_info_reads_the_record() {
    let seen = RefCell::new(Vec::new());
    let bus = |call: Call| -> Reply {
        seen.borrow_mut().push(line(&call));
        let mut info = jami::DataTransferInfo::blank();
        info.account_id = st("acc");
        info.total = 10;
        info.bytes_progress = 4;
        Ok(vec![Value::UInt32(0), Value::Transfer(info.tuple())])
    };
    let info = Jami::data_transfer_info(&bus, st("acc"), st("conv"), 5).unwrap();
    assert_eq!(info.account_id, "acc");
    assert_eq!(info.total, 10);
    assert_eq!(info.bytes_progress, 4);
    assert_eq!(
        *seen.borrow(),
        vec!["dataTransferInfo(s:acc;s:conv;t:5;r:(\"\", 0, 0, 0, 0, \"\", \"\", \"\", \"\", \"\", \"\"))"]
    );
}
