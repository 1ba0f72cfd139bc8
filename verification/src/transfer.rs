//! The transfer-info record and its positional wire form.

use vstd::prelude::*;

verus! {

/// The record as the bus carries it: eleven positional fields.
pub type TransferTuple = (String, u32, u32, i64, i64, String, String, String, String, String, String);

/// State of one file transfer, as the daemon describes it.
pub struct DataTransferInfo {
    pub account_id: String,
    pub last_event: u32,
    pub flags: u32,
    pub total: i64,
    pub bytes_progress: i64,
    pub author: String,
    pub peer: String,
    pub conv_id: String,
    pub display_name: String,
    pub path: String,
    pub mimetype: String,
}

impl DataTransferInfo {
    /// The record laid out in the daemon's positional order.
    pub open spec fn spec_tuple(self) -> (
        String,
        u32,
        u32,
        i64,
        i64,
        String,
        String,
        String,
        String,
        String,
        String,
    ) {
        (
            self.account_id,
            self.last_event,
            self.flags,
            self.total,
            self.bytes_progress,
            self.author,
            self.peer,
            self.conv_id,
            self.display_name,
            self.path,
            self.mimetype,
        )
    }

    /// The record that a positional tuple denotes.
    pub open spec fn spec_from_tuple(
        info: (String, u32, u32, i64, i64, String, String, String, String, String, String),
    ) -> DataTransferInfo {
        DataTransferInfo {
            account_id: info.0,
            last_event: info.1,
            flags: info.2,
            total: info.3,
            bytes_progress: info.4,
            author: info.5,
            peer: info.6,
            conv_id: info.7,
            display_name: info.8,
            path: info.9,
            mimetype: info.10,
        }
    }

    /// Whether the record describes nothing: every number zero, every text
    /// empty.
    pub open spec fn is_blank(self) -> bool {
        &&& self.account_id@.len() == 0
        &&& self.last_event == 0
        &&& self.flags == 0
        &&& self.total == 0
        &&& self.bytes_progress == 0
        &&& self.author@.len() == 0
        &&& self.peer@.len() == 0
        &&& self.conv_id@.len() == 0
        &&& self.display_name@.len() == 0
        &&& self.path@.len() == 0
        &&& self.mimetype@.len() == 0
    }

    /// Whether the record announces the file at `path` to the conversation
    /// `conv_id` of the account `account_id`, and describes nothing else.
    pub open spec fn is_offer(self, account_id: String, conv_id: String, path: String) -> bool {
        &&& self.account_id == account_id
        &&& self.last_event == 0
        &&& self.flags == 0
        &&& self.total == 0
        &&& self.bytes_progress == 0
        &&& self.author@.len() == 0
        &&& self.peer@.len() == 0
        &&& self.conv_id == conv_id
        &&& self.display_name@.len() == 0
        &&& self.path == path
        &&& self.mimetype@.len() == 0
    }

    /// The record that describes nothing, for the daemon to fill in.
    pub fn blank() -> (r: Self)
        ensures
            r.is_blank(),
    {
        Self {
            account_id: String::new(),
            last_event: 0,
            flags: 0,
            total: 0,
            bytes_progress: 0,
            author: String::new(),
            peer: String::new(),
            conv_id: String::new(),
            display_name: String::new(),
            path: String::new(),
            mimetype: String::new(),
        }
    }

    /// The record that announces a file to a conversation.
    pub fn offer(account_id: String, conv_id: String, path: String) -> (r: Self)
        ensures
            r.is_offer(account_id, conv_id, path),
    {
        Self {
            account_id,
            last_event: 0,
            flags: 0,
            total: 0,
            bytes_progress: 0,
            author: String::new(),
            peer: String::new(),
            conv_id,
            display_name: String::new(),
            path,
            mimetype: String::new(),
        }
    }

    /// Marshals the record into the positional tuple sent over the bus.
    pub fn tuple(&self) -> (t: (
        String,
        u32,
        u32,
        i64,
        i64,
        String,
        String,
        String,
        String,
        String,
        String,
    ))
        ensures
            t == self.spec_tuple(),
    {
        (
            self.account_id.clone(),
            self.last_event,
            self.flags,
            self.total,
            self.bytes_progress,
            self.author.clone(),
            self.peer.clone(),
            self.conv_id.clone(),
            self.display_name.clone(),
            self.path.clone(),
            self.mimetype.clone(),
        )
    }

    /// Rebuilds the record from a positional tuple received over the bus.
    pub fn from_tuple(
        info: (String, u32, u32, i64, i64, String, String, String, String, String, String),
    ) -> (r: Self)
        ensures
            r == Self::spec_from_tuple(info),
    {
        Self {
            account_id: info.0,
            last_event: info.1,
            flags: info.2,
            total: info.3,
            bytes_progress: info.4,
            author: info.5,
            peer: info.6,
            conv_id: info.7,
            display_name: info.8,
            path: info.9,
            mimetype: info.10,
        }
    }
}

/// Marshalling a record and rebuilding it gives the record back, field for
/// field.
pub proof fn lemma_tuple_round_trip(r: DataTransferInfo)
    ensures
        DataTransferInfo::spec_from_tuple(r.spec_tuple()) == r,
{
}

/// Rebuilding a record from a tuple and marshalling it gives the tuple back,
/// position for position.
pub proof fn lemma_record_round_trip(
    t: (String, u32, u32, i64, i64, String, String, String, String, String, String),
)
    ensures
        DataTransferInfo::spec_from_tuple(t).spec_tuple() == t,
{
}

} // verus!
