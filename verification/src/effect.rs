//! What an operation asks its caller to do, and what the caller reports
//! back. All of it is plain data: the caller owns the mail transport and the
//! clients of both stores.

use crate::ident::{AccountId, ProfileId};
use crate::mail::{LoginMail, LoginMailModel};
use vstd::prelude::*;

verus! {

/// A login challenge as read back from the ephemeral store. A field is
/// `None` when the record does not have it.
#[derive(Clone, Debug, PartialEq, Eq)]
pub struct StoredChallenge {
    pub email: Option<String>,
    pub response: Option<String>,
}

/// What a [`StoredChallenge`] holds.
pub struct StoredChallengeModel {
    pub email: Option<Seq<char>>,
    pub response: Option<Seq<char>>,
}

impl View for StoredChallenge {
    type V = StoredChallengeModel;

    open spec fn view(&self) -> StoredChallengeModel {
        StoredChallengeModel {
            email: self.email.deep_view(),
            response: self.response.deep_view(),
        }
    }
}

impl DeepView for StoredChallenge {
    type V = StoredChallengeModel;

    open spec fn deep_view(&self) -> StoredChallengeModel {
        self@
    }
}

/// The three fields of a session record as read back from the ephemeral
/// store. A field that the record lacks reads as the empty text.
#[derive(Clone, Debug, PartialEq, Eq)]
pub struct StoredSession {
    pub account_id: String,
    pub username: String,
    pub display_name: String,
}

/// What a [`StoredSession`] holds.
pub struct StoredSessionModel {
    pub account_id: Seq<char>,
    pub username: Seq<char>,
    pub display_name: Seq<char>,
}

impl View for StoredSession {
    type V = StoredSessionModel;

    open spec fn view(&self) -> StoredSessionModel {
        StoredSessionModel {
            account_id: self.account_id@,
            username: self.username@,
            display_name: self.display_name@,
        }
    }
}

impl DeepView for StoredSession {
    type V = StoredSessionModel;

    open spec fn deep_view(&self) -> StoredSessionModel {
        self@
    }
}

/// An account as found by email, with the names of its default profile.
#[derive(Clone, Debug, PartialEq, Eq)]
pub struct AccountRecord {
    pub account_id: AccountId,
    pub username: Option<String>,
    pub display_name: Option<String>,
}

/// What an [`AccountRecord`] holds.
pub struct AccountRecordModel {
    pub account_id: AccountId,
    pub username: Option<Seq<char>>,
    pub display_name: Option<Seq<char>>,
}

impl View for AccountRecord {
    type V = AccountRecordModel;

    open spec fn view(&self) -> AccountRecordModel {
        AccountRecordModel {
            account_id: self.account_id,
            username: self.username.deep_view(),
            display_name: self.display_name.deep_view(),
        }
    }
}

impl DeepView for AccountRecord {
    type V = AccountRecordModel;

    open spec fn deep_view(&self) -> AccountRecordModel {
        self@
    }
}

/// One thing for the caller to do before the operation can go on.
#[derive(Clone, Debug, PartialEq, Eq)]
pub enum Request {
    /// Hand the mail to the transport.
    SendMail { mail: LoginMail },
    /// Ephemeral store: is there a record under `key`?
    KeyExists { key: String },
    /// Ephemeral store: in one transaction, write the two fields of a login
    /// challenge under `key` and let the record expire after `ttl_secs`.
    PutChallenge { key: String, email: String, response: String, ttl_secs: u64 },
    /// Ephemeral store: read the whole record of a login challenge.
    GetChallenge { key: String },
    /// Ephemeral store: set `key` to `value`, expiring after `ttl_secs`, but
    /// only if there is no record under `key` yet.
    PutIfAbsent { key: String, value: String, ttl_secs: u64 },
    /// Ephemeral store: in one transaction, write the three fields of a
    /// session under `key` and let the record expire after `ttl_secs`.
    PutSession {
        key: String,
        account_id: String,
        username: String,
        display_name: String,
        ttl_secs: u64,
    },
    /// Ephemeral store: read the three fields of a session.
    GetSession { key: String },
    /// Durable store: find the account with this primary or secondary email.
    FindAccount { email: String },
    /// Durable store: open a transaction.
    BeginTransaction,
    /// Durable store, in the transaction: insert an account, report its id.
    InsertAccount { email: String },
    /// Durable store, in the transaction: insert a profile, report its id.
    InsertProfile {
        username: Option<String>,
        account_id: AccountId,
        display_name: Option<String>,
        bio: Option<String>,
    },
    /// Durable store, in the transaction: make the profile the account's
    /// default, report the number of accounts changed.
    SetDefaultProfile { account_id: AccountId, profile_id: ProfileId },
    /// Durable store: commit the transaction.
    Commit,
    /// Durable store: abandon the transaction.
    Rollback,
}

/// What a [`Request`] holds.
pub enum RequestModel {
    SendMail { mail: LoginMailModel },
    KeyExists { key: Seq<char> },
    PutChallenge { key: Seq<char>, email: Seq<char>, response: Seq<char>, ttl_secs: u64 },
    GetChallenge { key: Seq<char> },
    PutIfAbsent { key: Seq<char>, value: Seq<char>, ttl_secs: u64 },
    PutSession {
        key: Seq<char>,
        account_id: Seq<char>,
        username: Seq<char>,
        display_name: Seq<char>,
        ttl_secs: u64,
    },
    GetSession { key: Seq<char> },
    FindAccount { email: Seq<char> },
    BeginTransaction,
    InsertAccount { email: Seq<char> },
    InsertProfile {
        username: Option<Seq<char>>,
        account_id: AccountId,
        display_name: Option<Seq<char>>,
        bio: Option<Seq<char>>,
    },
    SetDefaultProfile { account_id: AccountId, profile_id: ProfileId },
    Commit,
    Rollback,
}

impl View for Request {
    type V = RequestModel;

    open spec fn view(&self) -> RequestModel {
        match self {
            Request::SendMail { mail } => RequestModel::SendMail { mail: mail@ },
            Request::KeyExists { key } => RequestModel::KeyExists { key: key@ },
            Request::PutChallenge { key, email, response, ttl_secs } => RequestModel::PutChallenge {
                key: key@,
                email: email@,
                response: response@,
                ttl_secs: *ttl_secs,
            },
            Request::GetChallenge { key } => RequestModel::GetChallenge { key: key@ },
            Request::PutIfAbsent { key, value, ttl_secs } => RequestModel::PutIfAbsent {
                key: key@,
                value: value@,
                ttl_secs: *ttl_secs,
            },
            Request::PutSession {
                key,
                account_id,
                username,
                display_name,
                ttl_secs,
            } => RequestModel::PutSession {
                key: key@,
                account_id: account_id@,
                username: username@,
                display_name: display_name@,
                ttl_secs: *ttl_secs,
            },
            Request::GetSession { key } => RequestModel::GetSession { key: key@ },
            Request::FindAccount { email } => RequestModel::FindAccount { email: email@ },
            Request::BeginTransaction => RequestModel::BeginTransaction,
            Request::InsertAccount { email } => RequestModel::InsertAccount { email: email@ },
            Request::InsertProfile {
                username,
                account_id,
                display_name,
                bio,
            } => RequestModel::InsertProfile {
                username: username.deep_view(),
                account_id: *account_id,
                display_name: display_name.deep_view(),
                bio: bio.deep_view(),
            },
            Request::SetDefaultProfile { account_id, profile_id } => RequestModel::SetDefaultProfile {
                account_id: *account_id,
                profile_id: *profile_id,
            },
            Request::Commit => RequestModel::Commit,
            Request::Rollback => RequestModel::Rollback,
        }
    }
}

impl DeepView for Request {
    type V = RequestModel;

    open spec fn deep_view(&self) -> RequestModel {
        self@
    }
}

/// What became of the last request.
#[derive(Clone, Debug, PartialEq, Eq)]
pub enum Event {
    /// The request could not be carried out.
    Failed,
    /// The request was carried out and has nothing to report: the mail was
    /// handed over, the record written, the transaction opened or committed.
    Completed,
    /// Answer to `KeyExists`.
    Exists(bool),
    /// Answer to `PutIfAbsent`: whether the key was free and is now set.
    Stored(bool),
    /// Answer to `GetChallenge`: the record, or `None` when there is none.
    Challenge(Option<StoredChallenge>),
    /// Answer to `GetSession`.
    Session(StoredSession),
    /// Answer to `FindAccount`: the account, or `None` when there is none.
    Account(Option<AccountRecord>),
    /// Answer to `InsertAccount` and `InsertProfile`: the new row's id.
    Inserted(u128),
    /// Answer to `SetDefaultProfile`: the number of rows changed.
    Updated(u64),
}

/// What an [`Event`] holds.
pub enum EventModel {
    Failed,
    Completed,
    Exists(bool),
    Stored(bool),
    Challenge(Option<StoredChallengeModel>),
    Session(StoredSessionModel),
    Account(Option<AccountRecordModel>),
    Inserted(u128),
    Updated(u64),
}

impl View for Event {
    type V = EventModel;

    open spec fn view(&self) -> EventModel {
        match self {
            Event::Failed => EventModel::Failed,
            Event::Completed => EventModel::Completed,
            Event::Exists(found) => EventModel::Exists(*found),
            Event::Stored(stored) => EventModel::Stored(*stored),
            Event::Challenge(record) => EventModel::Challenge(record.deep_view()),
            Event::Session(record) => EventModel::Session(record@),
            Event::Account(record) => EventModel::Account(record.deep_view()),
            Event::Inserted(id) => EventModel::Inserted(*id),
            Event::Updated(rows) => EventModel::Updated(*rows),
        }
    }
}

impl DeepView for Event {
    type V = EventModel;

    open spec fn deep_view(&self) -> EventModel {
        self@
    }
}

} // verus!
