//! Accounts as the daemon describes them.

use crate::dict::Dict;
use crate::text::{same_text, strip_all, without};
use vstd::prelude::*;

verus! {

/// Where a new account takes its identity from.
#[allow(non_camel_case_types)]
#[derive(Clone, Copy, Debug, PartialEq, Eq, Structural)]
pub enum ImportType {
    /// A fresh account; the main information is its alias.
    NONE,
    /// An archive on disk; the main information is its path.
    BACKUP,
    /// An archive on the network; the main information is its pin.
    NETWORK,
}

/// One account of the daemon.
#[derive(Debug)]
pub struct Account {
    pub id: String,
    pub hash: String,
    pub alias: String,
    pub registered_name: String,
    pub enabled: bool,
}

/// An account with its texts as sequences of characters.
pub struct AccountView {
    pub id: Seq<char>,
    pub hash: Seq<char>,
    pub alias: Seq<char>,
    pub registered_name: Seq<char>,
    pub enabled: bool,
}

impl View for Account {
    type V = AccountView;

    open spec fn view(&self) -> AccountView {
        AccountView {
            id: self.id@,
            hash: self.hash@,
            alias: self.alias@,
            registered_name: self.registered_name@,
            enabled: self.enabled,
        }
    }
}

impl Clone for Account {
    fn clone(&self) -> (a: Account)
        ensures
            a == *self,
    {
        Account {
            id: self.id.clone(),
            hash: self.hash.clone(),
            alias: self.alias.clone(),
            registered_name: self.registered_name.clone(),
            enabled: self.enabled,
        }
    }
}

/// What `key` is mapped to in `details`, the empty text where it is not
/// mapped.
pub open spec fn detail(details: Map<Seq<char>, Seq<char>>, key: Seq<char>) -> Seq<char> {
    if details.contains_key(key) {
        details[key]
    } else {
        Seq::empty()
    }
}

/// The account without identity: every text empty, not enabled.
pub open spec fn null_account() -> AccountView {
    AccountView {
        id: Seq::empty(),
        hash: Seq::empty(),
        alias: Seq::empty(),
        registered_name: Seq::empty(),
        enabled: false,
    }
}

/// The account that the daemon's details describe. It is enabled where
/// the details say `true`; its hash is the user name without the scheme
/// prefix.
pub open spec fn account_of(id: Seq<char>, details: Map<Seq<char>, Seq<char>>) -> AccountView {
    AccountView {
        id,
        hash: without(detail(details, "Account.username"@), "ring:"@),
        alias: detail(details, "Account.alias"@),
        registered_name: detail(details, "Account.registeredName"@),
        enabled: detail(details, "Account.enable"@) == "true"@,
    }
}

fn detail_of(details: &Dict, key: &str) -> (r: String)
    ensures
        r@ == detail(details@, key@),
{
    match details.get(key) {
        Some(value) => value.clone(),
        None => String::new(),
    }
}

impl Account {
    /// The account without identity.
    pub fn null() -> (a: Account)
        ensures
            a@ == null_account(),
    {
        Account {
            id: String::new(),
            hash: String::new(),
            alias: String::new(),
            registered_name: String::new(),
            enabled: false,
        }
    }

    /// Builds the account with the id `id` from the details that the
    /// daemon keeps of it.
    pub fn from_details(id: &str, details: &Dict) -> (a: Account)
        ensures
            a@ == account_of(id@, details@),
    {
        let enable = detail_of(details, "Account.enable");
        let username = detail_of(details, "Account.username");
        Account {
            id: id.to_owned(),
            hash: strip_all(username.as_str(), "ring:"),
            alias: detail_of(details, "Account.alias"),
            registered_name: detail_of(details, "Account.registeredName"),
            enabled: same_text(enable.as_str(), "true"),
        }
    }
}

/// Whether `pick` is the position of the first enabled account of
/// `accounts`: `None` exactly when no account is enabled.
pub open spec fn is_first_enabled(accounts: Seq<Account>, pick: Option<int>) -> bool {
    match pick {
        Some(i) => {
            &&& 0 <= i < accounts.len()
            &&& accounts[i].enabled
            &&& forall|j: int| 0 <= j < i ==> !(#[trigger] accounts[j]).enabled
        },
        None => forall|j: int| 0 <= j < accounts.len() ==> !(#[trigger] accounts[j]).enabled,
    }
}

/// Position of the first enabled account of `accounts`, if one is enabled.
pub fn first_enabled(accounts: &Vec<Account>) -> (r: Option<usize>)
    ensures
        match r {
            Some(i) => is_first_enabled(accounts@, Some(i as int)),
            None => is_first_enabled(accounts@, None),
        },
{
    let mut i: usize = 0;
    while i < accounts.len()
        invariant
            i <= accounts.len(),
            forall|j: int| 0 <= j < i ==> !(#[trigger] accounts@[j]).enabled,
        decreases accounts.len() - i,
    {
        if accounts[i].enabled {
            return Some(i);
        }
        i = i + 1;
    }
    None
}

/// At most one position is the first enabled one.
pub proof fn lemma_first_enabled_unique(accounts: Seq<Account>, a: Option<int>, b: Option<int>)
    requires
        is_first_enabled(accounts, a),
        is_first_enabled(accounts, b),
    ensures
        a == b,
{
    match (a, b) {
        (Some(i), Some(j)) => {
            if i < j {
                assert(!accounts[i].enabled);
            } else if j < i {
                assert(!accounts[j].enabled);
            }
        },
        (Some(i), None) => {
            assert(!accounts[i].enabled);
        },
        (None, Some(j)) => {
            assert(!accounts[j].enabled);
        },
        (None, None) => {},
    }
}

/// The key under which the main information of a new account is filed.
pub open spec fn main_key(import_type: ImportType) -> Seq<char> {
    match import_type {
        ImportType::BACKUP => "Account.archivePath"@,
        ImportType::NETWORK => "Account.archivePin"@,
        ImportType::NONE => "Account.alias"@,
    }
}

/// The details that describe a new account to the daemon.
pub open spec fn new_account_details(
    main_info: Seq<char>,
    password: Seq<char>,
    import_type: ImportType,
) -> Map<Seq<char>, Seq<char>> {
    Map::empty().insert(main_key(import_type), main_info).insert(
        "Account.type"@,
        "RING"@,
    ).insert("Account.archivePassword"@, password)
}

/// Builds the details that describe a new account to the daemon.
pub fn account_details(main_info: &str, password: &str, import_type: ImportType) -> (d: Dict)
    ensures
        d@ == new_account_details(main_info@, password@, import_type),
{
    let mut details = Dict::new();
    let key = match import_type {
        ImportType::BACKUP => "Account.archivePath",
        ImportType::NETWORK => "Account.archivePin",
        ImportType::NONE => "Account.alias",
    };
    details.insert(key.to_owned(), main_info.to_owned());
    details.insert("Account.type".to_owned(), "RING".to_owned());
    details.insert("Account.archivePassword".to_owned(), password.to_owned());
    details
}

/// The senders of the trust requests `requests`, in their order: of each
/// request that names a sender under `from`, that sender.
pub open spec fn senders(requests: Seq<Dict>) -> Seq<Seq<char>>
    decreases requests.len(),
{
    if requests.len() == 0 {
        Seq::empty()
    } else if requests.last()@.contains_key("from"@) {
        senders(requests.drop_last()).push(requests.last()@["from"@])
    } else {
        senders(requests.drop_last())
    }
}

/// The texts of a list of strings.
pub open spec fn texts(strings: Seq<String>) -> Seq<Seq<char>> {
    strings.map_values(|s: String| s@)
}

/// Lists the senders of the trust requests `requests`.
pub fn trust_request_senders(requests: &Vec<Dict>) -> (r: Vec<String>)
    ensures
        texts(r@) == senders(requests@),
{
    let mut res: Vec<String> = Vec::new();
    let mut i: usize = 0;
    while i < requests.len()
        invariant
            i <= requests.len(),
            texts(res@) == senders(requests@.take(i as int)),
        decreases requests.len() - i,
    {
        proof {
            assert(requests@.take(i + 1).drop_last() =~= requests@.take(i as int));
        }
        let ghost before = res@;
        match requests[i].get("from") {
            Some(from) => {
                res.push(from.clone());
                assert(texts(res@) =~= texts(before).push(from@));
            },
            None => {},
        }
        i = i + 1;
    }
    proof {
        assert(requests@.take(i as int) =~= requests@);
    }
    res
}

} // verus!
