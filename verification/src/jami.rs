//! The requests that the daemon serves, one function for each.
//!
//! Every function makes one call through the `bus` it is handed and reads
//! the reply. A call that fails, or a reply of another shape than the
//! method gives, reads as the method's empty answer: `false`, `0`, an empty
//! text, list or mapping.

use crate::account::{
    account_details, account_of, first_enabled, is_first_enabled, new_account_details,
    null_account, senders, texts, trust_request_senders, Account, AccountView, ImportType,
};
use crate::bus::{
    ask, asked, count, dict, dicts, flag, ident, is_dict_of, is_dicts_of, is_list_of,
    is_text_of, list, serves_all, spec_count, spec_first, spec_flag, spec_ident,
    spec_transfer, text, transfer, Call, Reply,
};
use crate::dict::Dict;
use crate::text::{all_lower_hex, is_lower_hex};
use crate::transfer::DataTransferInfo;
use crate::wire::{Kind, Value};
use vstd::prelude::*;
use vstd::string::StrSliceExecFns;

verus! {

/// The daemon, as the functions that reach it.
pub struct Jami {}

impl Jami {
    /// Whether `string` has the form of an account hash: forty lower-case
    /// hexadecimal digits.
    pub fn is_hash(string: &String) -> (b: bool)
        ensures
            b == (string@.len() == 40 && all_lower_hex(string@)),
    {
        let s = string.as_str();
        if s.unicode_len() != 40 {
            return false;
        }
        let mut i: usize = 0;
        while i < 40
            invariant
                i <= 40,
                s@ == string@,
                s@.len() == 40,
                forall|j: int| 0 <= j < i ==> is_lower_hex(#[trigger] s@[j]),
            decreases 40 - i,
        {
            let c = s.get_char(i);
            if !(('0' <= c && c <= '9') || ('a' <= c && c <= 'f')) {
                assert(!is_lower_hex(s@[i as int]));
                return false;
            }
            i = i + 1;
        }
        true
    }

    /// Starts the lookup of a name; what is found comes as a signal. Returns
    /// whether the daemon took the request.
    pub fn lookup_name<B: Fn(Call) -> Reply>(
        bus: &B,
        account: &String,
        name_service: &String,
        name: &String,
    ) -> (r: bool)
        requires
            serves_all(bus),
        ensures
            exists|reply: Reply|
                asked(
                    bus,
                    "lookupName"@,
                    seq![
                        Value::Str(*account),
                        Value::Str(*name_service),
                        Value::Str(*name),
                    ],
                    reply,
                ) && r == spec_flag(reply),
    {
        let args = vec![
            Value::Str(account.clone()),
            Value::Str(name_service.clone()),
            Value::Str(name.clone()),
        ];
        assert(args@ =~= seq![
            Value::Str(*account),
            Value::Str(*name_service),
            Value::Str(*name),
        ]);
        let reply = ask(bus, "lookupName", args);
        flag(reply)
    }

    /// Starts the lookup of an address; what is found comes as a signal.
    /// Returns whether the daemon took the request.
    pub fn lookup_address<B: Fn(Call) -> Reply>(
        bus: &B,
        account: &String,
        name_service: &String,
        address: &String,
    ) -> (r: bool)
        requires
            serves_all(bus),
        ensures
            exists|reply: Reply|
                asked(
                    bus,
                    "lookupAddress"@,
                    seq![
                        Value::Str(*account),
                        Value::Str(*name_service),
                        Value::Str(*address),
                    ],
                    reply,
                ) && r == spec_flag(reply),
    {
        let args = vec![
            Value::Str(account.clone()),
            Value::Str(name_service.clone()),
            Value::Str(address.clone()),
        ];
        assert(args@ =~= seq![
            Value::Str(*account),
            Value::Str(*name_service),
            Value::Str(*address),
        ]);
        let reply = ask(bus, "lookupAddress", args);
        flag(reply)
    }

    /// Adds the contact `uri` to the account `id`.
    pub fn add_contact<B: Fn(Call) -> Reply>(
        bus: &B,
        id: &String,
        uri: &String,
    )
        requires
            serves_all(bus),
        ensures
            exists|reply: Reply|
                asked(
                    bus,
                    "addContact"@,
                    seq![
                        Value::Str(*id),
                        Value::Str(*uri),
                    ],
                    reply,
                ),
    {
        let args = vec![
            Value::Str(id.clone()),
            Value::Str(uri.clone()),
        ];
        assert(args@ =~= seq![
            Value::Str(*id),
            Value::Str(*uri),
        ]);
        let _ = ask(bus, "addContact", args);
    }

    /// Sends a trust request from the account `id` to the contact `to`, with
    /// a card as payload.
    pub fn send_trust_request<B: Fn(Call) -> Reply>(
        bus: &B,
        id: &String,
        to: &String,
        payloads: Vec<u8>,
    )
        requires
            serves_all(bus),
        ensures
            exists|reply: Reply|
                asked(
                    bus,
                    "sendTrustRequest"@,
                    seq![
                        Value::Str(*id),
                        Value::Str(*to),
                        Value::Bytes(payloads),
                    ],
                    reply,
                ),
    {
        let args = vec![
            Value::Str(id.clone()),
            Value::Str(to.clone()),
            Value::Bytes(payloads),
        ];
        assert(args@ =~= seq![
            Value::Str(*id),
            Value::Str(*to),
            Value::Bytes(payloads),
        ]);
        let _ = ask(bus, "sendTrustRequest", args);
    }

    /// Accepts the trust request that `from` sent to the account `id`.
    /// Returns whether the daemon did so.
    pub fn accept_trust_request<B: Fn(Call) -> Reply>(
        bus: &B,
        id: &String,
        from: &String,
    ) -> (r: bool)
        requires
            serves_all(bus),
        ensures
            exists|reply: Reply|
                asked(
                    bus,
                    "acceptTrustRequest"@,
                    seq![
                        Value::Str(*id),
                        Value::Str(*from),
                    ],
                    reply,
                ) && r == spec_flag(reply),
    {
        let args = vec![
            Value::Str(id.clone()),
            Value::Str(from.clone()),
        ];
        assert(args@ =~= seq![
            Value::Str(*id),
            Value::Str(*from),
        ]);
        let reply = ask(bus, "acceptTrustRequest", args);
        flag(reply)
    }

    /// Discards the trust request that `from` sent to the account `id`.
    /// Returns whether the daemon did so.
    pub fn discard_trust_request<B: Fn(Call) -> Reply>(
        bus: &B,
        id: &String,
        from: &String,
    ) -> (r: bool)
        requires
            serves_all(bus),
        ensures
            exists|reply: Reply|
                asked(
                    bus,
                    "discardTrustRequest"@,
                    seq![
                        Value::Str(*id),
                        Value::Str(*from),
                    ],
                    reply,
                ) && r == spec_flag(reply),
    {
        let args = vec![
            Value::Str(id.clone()),
            Value::Str(from.clone()),
        ];
        assert(args@ =~= seq![
            Value::Str(*id),
            Value::Str(*from),
        ]);
        let reply = ask(bus, "discardTrustRequest", args);
        flag(reply)
    }

    /// The members of the conversation `convid` of the account `id`.
    pub fn get_members<B: Fn(Call) -> Reply>(
        bus: &B,
        id: &String,
        convid: &String,
    ) -> (r: Vec<Dict>)
        requires
            serves_all(bus),
        ensures
            exists|reply: Reply|
                asked(
                    bus,
                    "getConversationMembers"@,
                    seq![
                        Value::Str(*id),
                        Value::Str(*convid),
                    ],
                    reply,
                ) && is_dicts_of(r, reply),
    {
        let args = vec![
            Value::Str(id.clone()),
            Value::Str(convid.clone()),
        ];
        assert(args@ =~= seq![
            Value::Str(*id),
            Value::Str(*convid),
        ]);
        let reply = ask(bus, "getConversationMembers", args);
        dicts(reply)
    }

    /// What the daemon knows of the conversation `convid` of the account
    /// `id`.
    pub fn get_conversation_infos<B: Fn(Call) -> Reply>(
        bus: &B,
        id: &String,
        convid: &String,
    ) -> (r: Dict)
        requires
            serves_all(bus),
        ensures
            exists|reply: Reply|
                asked(
                    bus,
                    "conversationInfos"@,
                    seq![
                        Value::Str(*id),
                        Value::Str(*convid),
                    ],
                    reply,
                ) && is_dict_of(r, reply),
    {
        let args = vec![
            Value::Str(id.clone()),
            Value::Str(convid.clone()),
        ];
        assert(args@ =~= seq![
            Value::Str(*id),
            Value::Str(*convid),
        ]);
        let reply = ask(bus, "conversationInfos", args);
        dict(reply)
    }

    /// Replaces what the daemon knows of the conversation `convid` of the
    /// account `id` by `infos`.
    pub fn update_conversation_infos<B: Fn(Call) -> Reply>(
        bus: &B,
        id: &String,
        convid: &String,
        infos: Dict,
    )
        requires
            serves_all(bus),
        ensures
            exists|reply: Reply|
                asked(
                    bus,
                    "updateConversationInfos"@,
                    seq![
                        Value::Str(*id),
                        Value::Str(*convid),
                        Value::Dict(infos),
                    ],
                    reply,
                ),
    {
        let args = vec![
            Value::Str(id.clone()),
            Value::Str(convid.clone()),
            Value::Dict(infos),
        ];
        assert(args@ =~= seq![
            Value::Str(*id),
            Value::Str(*convid),
            Value::Dict(infos),
        ]);
        let _ = ask(bus, "updateConversationInfos", args);
    }

    /// Starts a conversation for the account `id` and returns its id.
    pub fn start_conversation<B: Fn(Call) -> Reply>(
        bus: &B,
        id: &String,
    ) -> (r: String)
        requires
            serves_all(bus),
        ensures
            exists|reply: Reply|
                asked(
                    bus,
                    "startConversation"@,
                    seq![
                        Value::Str(*id),
                    ],
                    reply,
                ) && is_text_of(r, reply),
    {
        let args = vec![
            Value::Str(id.clone()),
        ];
        assert(args@ =~= seq![
            Value::Str(*id),
        ]);
        let reply = ask(bus, "startConversation", args);
        text(reply)
    }

    /// The ids of the conversations of the account `id`.
    pub fn get_conversations<B: Fn(Call) -> Reply>(
        bus: &B,
        id: &String,
    ) -> (r: Vec<String>)
        requires
            serves_all(bus),
        ensures
            exists|reply: Reply|
                asked(
                    bus,
                    "getConversations"@,
                    seq![
                        Value::Str(*id),
                    ],
                    reply,
                ) && is_list_of(r, reply),
    {
        let args = vec![
            Value::Str(id.clone()),
        ];
        assert(args@ =~= seq![
            Value::Str(*id),
        ]);
        let reply = ask(bus, "getConversations", args);
        list(reply)
    }

    /// The conversation requests that the account `id` has received.
    pub fn get_conversations_requests<B: Fn(Call) -> Reply>(
        bus: &B,
        id: &String,
    ) -> (r: Vec<Dict>)
        requires
            serves_all(bus),
        ensures
            exists|reply: Reply|
                asked(
                    bus,
                    "getConversationRequests"@,
                    seq![
                        Value::Str(*id),
                    ],
                    reply,
                ) && is_dicts_of(r, reply),
    {
        let args = vec![
            Value::Str(id.clone()),
        ];
        assert(args@ =~= seq![
            Value::Str(*id),
        ]);
        let reply = ask(bus, "getConversationRequests", args);
        dicts(reply)
    }

    /// Declines the request to join the conversation `conv_id`.
    pub fn decline_request<B: Fn(Call) -> Reply>(
        bus: &B,
        id: &String,
        conv_id: &String,
    )
        requires
            serves_all(bus),
        ensures
            exists|reply: Reply|
                asked(
                    bus,
                    "declineConversationRequest"@,
                    seq![
                        Value::Str(*id),
                        Value::Str(*conv_id),
                    ],
                    reply,
                ),
    {
        let args = vec![
            Value::Str(id.clone()),
            Value::Str(conv_id.clone()),
        ];
        assert(args@ =~= seq![
            Value::Str(*id),
            Value::Str(*conv_id),
        ]);
        let _ = ask(bus, "declineConversationRequest", args);
    }

    /// Accepts the request to join the conversation `conv_id`.
    pub fn accept_request<B: Fn(Call) -> Reply>(
        bus: &B,
        id: &String,
        conv_id: &String,
    )
        requires
            serves_all(bus),
        ensures
            exists|reply: Reply|
                asked(
                    bus,
                    "acceptConversationRequest"@,
                    seq![
                        Value::Str(*id),
                        Value::Str(*conv_id),
                    ],
                    reply,
                ),
    {
        let args = vec![
            Value::Str(id.clone()),
            Value::Str(conv_id.clone()),
        ];
        assert(args@ =~= seq![
            Value::Str(*id),
            Value::Str(*conv_id),
        ]);
        let _ = ask(bus, "acceptConversationRequest", args);
    }

    /// Starts loading messages of a conversation; they come as a signal.
    /// `from` is the message to start at, empty for the latest; `size` is the
    /// number of messages wanted, `0` for all. Returns the id of the request.
    pub fn load_conversation<B: Fn(Call) -> Reply>(
        bus: &B,
        account: &String,
        conversation: &String,
        from: &String,
        size: u32,
    ) -> (r: u32)
        requires
            serves_all(bus),
        ensures
            exists|reply: Reply|
                asked(
                    bus,
                    "loadConversationMessages"@,
                    seq![
                        Value::Str(*account),
                        Value::Str(*conversation),
                        Value::Str(*from),
                        Value::UInt32(size),
                    ],
                    reply,
                ) && r == spec_count(reply),
    {
        let args = vec![
            Value::Str(account.clone()),
            Value::Str(conversation.clone()),
            Value::Str(from.clone()),
            Value::UInt32(size),
        ];
        assert(args@ =~= seq![
            Value::Str(*account),
            Value::Str(*conversation),
            Value::Str(*from),
            Value::UInt32(size),
        ]);
        let reply = ask(bus, "loadConversationMessages", args);
        count(reply)
    }

    /// Removes the conversation `conv_id` from the account `id`. Returns
    /// whether the daemon did so.
    pub fn rm_conversation<B: Fn(Call) -> Reply>(
        bus: &B,
        id: &String,
        conv_id: &String,
    ) -> (r: bool)
        requires
            serves_all(bus),
        ensures
            exists|reply: Reply|
                asked(
                    bus,
                    "removeConversation"@,
                    seq![
                        Value::Str(*id),
                        Value::Str(*conv_id),
                    ],
                    reply,
                ) && r == spec_flag(reply),
    {
        let args = vec![
            Value::Str(id.clone()),
            Value::Str(conv_id.clone()),
        ];
        assert(args@ =~= seq![
            Value::Str(*id),
            Value::Str(*conv_id),
        ]);
        let reply = ask(bus, "removeConversation", args);
        flag(reply)
    }

    /// Invites the member `hash` to the conversation `conv_id`.
    pub fn add_conversation_member<B: Fn(Call) -> Reply>(
        bus: &B,
        id: &String,
        conv_id: &String,
        hash: &String,
    )
        requires
            serves_all(bus),
        ensures
            exists|reply: Reply|
                asked(
                    bus,
                    "addConversationMember"@,
                    seq![
                        Value::Str(*id),
                        Value::Str(*conv_id),
                        Value::Str(*hash),
                    ],
                    reply,
                ),
    {
        let args = vec![
            Value::Str(id.clone()),
            Value::Str(conv_id.clone()),
            Value::Str(hash.clone()),
        ];
        assert(args@ =~= seq![
            Value::Str(*id),
            Value::Str(*conv_id),
            Value::Str(*hash),
        ]);
        let _ = ask(bus, "addConversationMember", args);
    }

    /// Removes the member `hash` from the conversation `conv_id`.
    pub fn rm_conversation_member<B: Fn(Call) -> Reply>(
        bus: &B,
        id: &String,
        conv_id: &String,
        hash: &String,
    )
        requires
            serves_all(bus),
        ensures
            exists|reply: Reply|
                asked(
                    bus,
                    "rmConversationMember"@,
                    seq![
                        Value::Str(*id),
                        Value::Str(*conv_id),
                        Value::Str(*hash),
                    ],
                    reply,
                ),
    {
        let args = vec![
            Value::Str(id.clone()),
            Value::Str(conv_id.clone()),
            Value::Str(hash.clone()),
        ];
        assert(args@ =~= seq![
            Value::Str(*id),
            Value::Str(*conv_id),
            Value::Str(*hash),
        ]);
        let _ = ask(bus, "rmConversationMember", args);
    }

    /// Sends `message` to the conversation `conv_id` as an answer to the
    /// message `parent`. Returns the id that the daemon gave the message.
    pub fn send_conversation_message<B: Fn(Call) -> Reply>(
        bus: &B,
        id: &String,
        conv_id: &String,
        message: &String,
        parent: &String,
    ) -> (r: u64)
        requires
            serves_all(bus),
        ensures
            exists|reply: Reply|
                asked(
                    bus,
                    "sendMessage"@,
                    seq![
                        Value::Str(*id),
                        Value::Str(*conv_id),
                        Value::Str(*message),
                        Value::Str(*parent),
                    ],
                    reply,
                ) && r == spec_ident(reply),
    {
        let args = vec![
            Value::Str(id.clone()),
            Value::Str(conv_id.clone()),
            Value::Str(message.clone()),
            Value::Str(parent.clone()),
        ];
        assert(args@ =~= seq![
            Value::Str(*id),
            Value::Str(*conv_id),
            Value::Str(*message),
            Value::Str(*parent),
        ]);
        let reply = ask(bus, "sendMessage", args);
        ident(reply)
    }

    /// Accepts the transfer `tid` and has the file written to `path`, from
    /// its first byte. Returns the daemon's status code.
    pub fn accept_file_transfer<B: Fn(Call) -> Reply>(
        bus: &B,
        id: &String,
        conv_id: &String,
        tid: u64,
        path: &String,
    ) -> (r: u32)
        requires
            serves_all(bus),
        ensures
            exists|reply: Reply|
                asked(
                    bus,
                    "acceptFileTransfer"@,
                    seq![
                        Value::Str(*id),
                        Value::Str(*conv_id),
                        Value::UInt64(tid),
                        Value::Str(*path),
                        Value::Int64(0),
                    ],
                    reply,
                ) && r == spec_count(reply),
    {
        let args = vec![
            Value::Str(id.clone()),
            Value::Str(conv_id.clone()),
            Value::UInt64(tid),
            Value::Str(path.clone()),
            Value::Int64(0),
        ];
        assert(args@ =~= seq![
            Value::Str(*id),
            Value::Str(*conv_id),
            Value::UInt64(tid),
            Value::Str(*path),
            Value::Int64(0),
        ]);
        let reply = ask(bus, "acceptFileTransfer", args);
        count(reply)
    }

    /// Cancels the transfer `tid`. Returns the daemon's status code.
    pub fn cancel_file_transfer<B: Fn(Call) -> Reply>(
        bus: &B,
        id: &String,
        conv_id: &String,
        tid: u64,
    ) -> (r: u32)
        requires
            serves_all(bus),
        ensures
            exists|reply: Reply|
                asked(
                    bus,
                    "cancelDataTransfer"@,
                    seq![
                        Value::Str(*id),
                        Value::Str(*conv_id),
                        Value::UInt64(tid),
                    ],
                    reply,
                ) && r == spec_count(reply),
    {
        let args = vec![
            Value::Str(id.clone()),
            Value::Str(conv_id.clone()),
            Value::UInt64(tid),
        ];
        assert(args@ =~= seq![
            Value::Str(*id),
            Value::Str(*conv_id),
            Value::UInt64(tid),
        ]);
        let reply = ask(bus, "cancelDataTransfer", args);
        count(reply)
    }

    /// Removes the account `id`.
    pub fn rm_account<B: Fn(Call) -> Reply>(bus: &B, id: &str)
        requires
            serves_all(bus),
        ensures
            exists|reply: Reply, key: String|
                key@ == id@ && asked(bus, "removeAccount"@, seq![Value::Str(key)], reply),
    {
        let key = id.to_owned();
        let args = vec![Value::Str(key)];
        assert(args@ =~= seq![Value::Str(key)]);
        let _ = ask(bus, "removeAccount", args);
    }

    /// Selects the account to work with: the first enabled account of the
    /// daemon. Where none is enabled the account without identity is
    /// returned, after a fresh account has been asked for if
    /// `create_if_not` says so.
    pub fn select_jami_account<B: Fn(Call) -> Reply>(bus: &B, create_if_not: bool) -> (r: Account)
        requires
            serves_all(bus),
        ensures
            exists|accounts: Seq<Account>| #[trigger]
                listed(bus, accounts) && selected(bus, accounts, create_if_not, r),
    {
        let accounts = Self::get_account_list(bus);
        match first_enabled(&accounts) {
            Some(i) => {
                let account = accounts[i].clone();
                assert(is_first_enabled(accounts@, Some(i as int)));
                account
            },
            None => {
                if create_if_not {
                    let _ = Self::add_account(bus, "", "", ImportType::NONE);
                    proof {
                        reveal_strlit("");
                        assert(""@ =~= Seq::<char>::empty());
                    }
                }
                let account = Account::null();
                assert(is_first_enabled(accounts@, None));
                account
            },
        }
    }

    /// What the daemon keeps of the account `id`; the empty mapping where it
    /// gives nothing.
    pub fn get_account_details<B: Fn(Call) -> Reply>(bus: &B, id: &str) -> (r: Dict)
        requires
            serves_all(bus),
        ensures
            exists|reply: Reply, key: String|
                key@ == id@ && asked(bus, "getAccountDetails"@, seq![Value::Str(key)], reply)
                    && is_dict_of(r, reply),
    {
        let key = id.to_owned();
        let args = vec![Value::Str(key)];
        assert(args@ =~= seq![Value::Str(key)]);
        let reply = ask(bus, "getAccountDetails", args);
        dict(reply)
    }

    /// Replaces what the daemon keeps of the account `id` by `details`.
    pub fn set_account_details<B: Fn(Call) -> Reply>(bus: &B, id: &str, details: Dict)
        requires
            serves_all(bus),
        ensures
            exists|reply: Reply, key: String|
                key@ == id@ && asked(
                    bus,
                    "setAccountDetails"@,
                    seq![Value::Str(key), Value::Dict(details)],
                    reply,
                ),
    {
        let key = id.to_owned();
        let args = vec![Value::Str(key), Value::Dict(details)];
        assert(args@ =~= seq![Value::Str(key), Value::Dict(details)]);
        let _ = ask(bus, "setAccountDetails", args);
    }

    /// Adds an account and returns its id; the empty text where the daemon
    /// gave none. `main_info` is the alias of a fresh account, or the path
    /// or pin of the archive to import, as `import_type` says.
    pub fn add_account<B: Fn(Call) -> Reply>(
        bus: &B,
        main_info: &str,
        password: &str,
        import_type: ImportType,
    ) -> (r: String)
        requires
            serves_all(bus),
        ensures
            exists|reply: Reply|
                creation_asked(bus, main_info@, password@, import_type, reply) && is_text_of(
                    r,
                    reply,
                ),
    {
        let details = account_details(main_info, password, import_type);
        let args = vec![Value::Dict(details)];
        assert(args@ =~= seq![Value::Dict(details)]);
        let reply = ask(bus, "addAccount", args);
        text(reply)
    }

    /// Builds the account `id` from what the daemon keeps of it; the
    /// account without identity where the daemon gives nothing.
    pub fn get_account<B: Fn(Call) -> Reply>(bus: &B, id: &str) -> (r: Account)
        requires
            serves_all(bus),
        ensures
            fetched(bus, id@, r@),
    {
        let key = id.to_owned();
        let args = vec![Value::Str(key)];
        assert(args@ =~= seq![Value::Str(key)]);
        let reply = ask(bus, "getAccountDetails", args);
        Self::account_from_reply(id, reply)
    }

    /// Reads the reply to a request for an account's details: the account
    /// `id` as the details describe it, the account without identity for a
    /// failed call and for a reply that holds no details.
    pub fn account_from_reply(id: &str, reply: Reply) -> (r: Account)
        ensures
            r@ == account_from(id@, reply),
    {
        match crate::bus::first(reply, Kind::Dict) {
            Some(Value::Dict(details)) => Account::from_details(id, &details),
            _ => Account::null(),
        }
    }

    /// The accounts of the daemon, each built from what the daemon keeps
    /// of it, in the daemon's order.
    pub fn get_account_list<B: Fn(Call) -> Reply>(bus: &B) -> (r: Vec<Account>)
        requires
            serves_all(bus),
        ensures
            listed(bus, r@),
    {
        let args: Vec<Value> = Vec::new();
        assert(args@ =~= Seq::<Value>::empty());
        let reply = ask(bus, "getAccountList", args);
        let ids = list(reply);
        assert(texts(ids@) =~= ids_of(reply));
        let mut account_list: Vec<Account> = Vec::new();
        let mut i: usize = 0;
        while i < ids.len()
            invariant
                serves_all(bus),
                i <= ids.len(),
                account_list@.len() == i,
                forall|j: int|
                    0 <= j < i ==> fetched(bus, (#[trigger] ids@[j])@, account_list@[j]@),
            decreases ids.len() - i,
        {
            let account = Self::get_account(bus, ids[i].as_str());
            account_list.push(account);
            i = i + 1;
        }
        assert forall|j: int| 0 <= j < ids_of(reply).len() implies fetched(
            bus,
            #[trigger] ids_of(reply)[j],
            account_list@[j]@,
        ) by {
            assert(ids_of(reply)[j] == ids@[j]@);
        }
        account_list
    }

    /// The senders of the trust requests that the account `id` has
    /// received.
    pub fn get_trust_requests<B: Fn(Call) -> Reply>(bus: &B, id: &String) -> (r: Vec<String>)
        requires
            serves_all(bus),
        ensures
            exists|reply: Reply, requests: Vec<Dict>|
                asked(bus, "getTrustRequests"@, seq![Value::Str(*id)], reply) && is_dicts_of(
                    requests,
                    reply,
                ) && texts(r@) == senders(requests@),
    {
        let args = vec![Value::Str(id.clone())];
        assert(args@ =~= seq![Value::Str(*id)]);
        let reply = ask(bus, "getTrustRequests", args);
        let requests = dicts(reply);
        trust_request_senders(&requests)
    }

    /// Offers the file at `path` to the conversation `conv_id`. The daemon
    /// reports the transfer by signal; what is returned is always `0`.
    pub fn send_file<B: Fn(Call) -> Reply>(
        bus: &B,
        account_id: String,
        conv_id: String,
        path: String,
    ) -> (r: u64)
        requires
            serves_all(bus),
        ensures
            r == 0,
            exists|reply: Reply, info: DataTransferInfo|
                info.is_offer(account_id, conv_id, path) && asked(
                    bus,
                    "sendFile"@,
                    seq![Value::Transfer(info.spec_tuple()), Value::UInt64(0)],
                    reply,
                ),
    {
        let info = DataTransferInfo::offer(account_id, conv_id, path);
        let id: u64 = 0;
        let args = vec![Value::Transfer(info.tuple()), Value::UInt64(id)];
        assert(args@ =~= seq![Value::Transfer(info.spec_tuple()), Value::UInt64(0)]);
        let _ = ask(bus, "sendFile", args);
        id
    }

    /// The state of the transfer `tid`; `None` where the daemon gives none.
    pub fn data_transfer_info<B: Fn(Call) -> Reply>(
        bus: &B,
        account_id: String,
        conv_id: String,
        tid: u64,
    ) -> (r: Option<DataTransferInfo>)
        requires
            serves_all(bus),
        ensures
            exists|reply: Reply, info: DataTransferInfo|
                info.is_blank() && asked(
                    bus,
                    "dataTransferInfo"@,
                    seq![
                        Value::Str(account_id),
                        Value::Str(conv_id),
                        Value::UInt64(tid),
                        Value::Transfer(info.spec_tuple()),
                    ],
                    reply,
                ) && r == spec_transfer(reply),
    {
        let info = DataTransferInfo::blank();
        let args = vec![
            Value::Str(account_id),
            Value::Str(conv_id),
            Value::UInt64(tid),
            Value::Transfer(info.tuple()),
        ];
        assert(args@ =~= seq![
            Value::Str(account_id),
            Value::Str(conv_id),
            Value::UInt64(tid),
            Value::Transfer(info.spec_tuple()),
        ]);
        let reply = ask(bus, "dataTransferInfo", args);
        transfer(reply)
    }
}

/// Whether `reply` answers the request to add an account described by
/// `main_info`, `password` and `import_type`.
pub open spec fn creation_asked<B: Fn(Call) -> Reply>(
    bus: &B,
    main_info: Seq<char>,
    password: Seq<char>,
    import_type: ImportType,
    reply: Reply,
) -> bool {
    exists|details: Dict|
        details@ == new_account_details(main_info, password, import_type) && #[trigger] asked(
            bus,
            "addAccount"@,
            seq![Value::Dict(details)],
            reply,
        )
}

/// Whether `account` is what selecting among `accounts` gives: the first
/// enabled one; where none is enabled the account without identity, a
/// fresh account having been asked for through `bus` if `create_if_not`.
pub open spec fn selected<B: Fn(Call) -> Reply>(
    bus: &B,
    accounts: Seq<Account>,
    create_if_not: bool,
    account: Account,
) -> bool {
    exists|pick: Option<int>| #[trigger]
        is_first_enabled(accounts, pick) && match pick {
            Some(i) => account == accounts[i],
            None => account@ == null_account() && (create_if_not ==> exists|reply: Reply|
                creation_asked(
                    bus,
                    Seq::<char>::empty(),
                    Seq::<char>::empty(),
                    ImportType::NONE,
                    reply,
                )),
        }
}

/// The account that a reply to a request for the details of `id` stands
/// for.
pub open spec fn account_from(id: Seq<char>, reply: Reply) -> AccountView {
    match spec_first(reply, Kind::Dict) {
        Some(value) => account_of(id, value->Dict_0@),
        None => null_account(),
    }
}

/// Whether `account` is what a request through `bus` for the details of
/// `id` gave.
pub open spec fn fetched<B: Fn(Call) -> Reply>(bus: &B, id: Seq<char>, account: AccountView) -> bool {
    exists|reply: Reply, key: String|
        key@ == id && #[trigger] asked(bus, "getAccountDetails"@, seq![Value::Str(key)], reply)
            && account == account_from(id, reply)
}

/// The account ids that a reply to a request for the account list holds.
pub open spec fn ids_of(reply: Reply) -> Seq<Seq<char>> {
    match spec_first(reply, Kind::StrList) {
        Some(value) => texts(value->StrList_0@),
        None => Seq::empty(),
    }
}

/// Whether `accounts` is what a request through `bus` for the account
/// list gave, each account fetched by its id.
pub open spec fn listed<B: Fn(Call) -> Reply>(bus: &B, accounts: Seq<Account>) -> bool {
    exists|reply: Reply| #[trigger]
        asked(bus, "getAccountList"@, Seq::<Value>::empty(), reply) && accounts.len() == ids_of(
            reply,
        ).len() && forall|j: int|
            0 <= j < accounts.len() ==> fetched(bus, #[trigger] ids_of(reply)[j], accounts[j]@)
}

} // verus!
