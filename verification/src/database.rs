//! The durable store as a registration sees it, and what follows from it:
//! a registration leaves either the whole account behind or nothing.
//!
//! The store itself is the caller's. This is its behaviour written down:
//! two tables, and a transaction that works on a copy of them until it is
//! committed.

use crate::cookie::{cookie_value, REGISTRATION_EMAIL_COOKIE};
use crate::effect::{EventModel, RequestModel};
use crate::error::AuthError;
use crate::flow::{next_model, Outcome, StepModel};
use crate::registration::register_start_model;
use vstd::prelude::*;

verus! {

/// A row of the account table.
pub struct AccountRow {
    pub id: u128,
    pub email: Seq<char>,
    pub default_profile: Option<u128>,
}

/// A row of the profile table.
pub struct ProfileRow {
    pub id: u128,
    pub username: Option<Seq<char>>,
    pub account_id: u128,
    pub display_name: Option<Seq<char>>,
    pub bio: Option<Seq<char>>,
}

/// Both tables.
pub struct Tables {
    pub accounts: Seq<AccountRow>,
    pub profiles: Seq<ProfileRow>,
}

impl Tables {
    /// Whether there is an account `id`.
    pub open spec fn has_account(self, id: u128) -> bool {
        exists|i: int| 0 <= i < self.accounts.len() && (#[trigger] self.accounts[i]).id == id
    }

    /// The tables with one more account.
    pub open spec fn with_account(self, row: AccountRow) -> Tables {
        Tables { accounts: self.accounts.push(row), profiles: self.profiles }
    }

    /// The tables with one more profile.
    pub open spec fn with_profile(self, row: ProfileRow) -> Tables {
        Tables { accounts: self.accounts, profiles: self.profiles.push(row) }
    }

    /// The tables with every account `account_id` pointed at `profile_id`.
    pub open spec fn linked(self, account_id: u128, profile_id: u128) -> Tables {
        Tables {
            accounts: Seq::new(
                self.accounts.len(),
                |i: int|
                    if self.accounts[i].id == account_id {
                        AccountRow {
                            id: self.accounts[i].id,
                            email: self.accounts[i].email,
                            default_profile: Some(profile_id),
                        }
                    } else {
                        self.accounts[i]
                    },
            ),
            profiles: self.profiles,
        }
    }
}

/// The durable store: what is committed, and what the open transaction, if
/// there is one, has made of it so far.
pub struct Database {
    pub committed: Tables,
    pub pending: Option<Tables>,
}

impl Database {
    /// Whether `request` is one for the transaction of a registration.
    pub open spec fn serves(request: RequestModel) -> bool {
        ||| request is BeginTransaction
        ||| request is InsertAccount
        ||| request is InsertProfile
        ||| request is SetDefaultProfile
        ||| request is Commit
        ||| request is Rollback
    }

    /// What the store answers to `request`, and what it is afterwards. The
    /// request fails if `works` is false, and a new row gets the id
    /// `new_id`. A statement that fails changes nothing; a commit that
    /// fails, like a rollback, ends the transaction without a trace.
    pub open spec fn serve(self, request: RequestModel, works: bool, new_id: u128) -> (
        EventModel,
        Database,
    ) {
        let closed = Database { committed: self.committed, pending: None };
        if request is Rollback {
            (EventModel::Completed, closed)
        } else if !works {
            (
                EventModel::Failed,
                if request is Commit {
                    closed
                } else {
                    self
                },
            )
        } else {
            match (request, self.pending) {
                (RequestModel::BeginTransaction, _) => (
                    EventModel::Completed,
                    Database { committed: self.committed, pending: Some(self.committed) },
                ),
                (RequestModel::InsertAccount { email }, Some(tables)) => (
                    EventModel::Inserted(new_id),
                    Database {
                        committed: self.committed,
                        pending: Some(
                            tables.with_account(
                                AccountRow { id: new_id, email, default_profile: None },
                            ),
                        ),
                    },
                ),
                (
                    RequestModel::InsertProfile { username, account_id, display_name, bio },
                    Some(tables),
                ) => (
                    EventModel::Inserted(new_id),
                    Database {
                        committed: self.committed,
                        pending: Some(
                            tables.with_profile(
                                ProfileRow {
                                    id: new_id,
                                    username,
                                    account_id: account_id.value,
                                    display_name,
                                    bio,
                                },
                            ),
                        ),
                    },
                ),
                (RequestModel::SetDefaultProfile { account_id, profile_id }, Some(tables)) => (
                    EventModel::Updated(
                        if tables.has_account(account_id.value) {
                            1
                        } else {
                            0
                        },
                    ),
                    Database {
                        committed: self.committed,
                        pending: Some(tables.linked(account_id.value, profile_id.value)),
                    },
                ),
                (RequestModel::Commit, Some(tables)) => (
                    EventModel::Completed,
                    Database { committed: tables, pending: None },
                ),
                _ => (EventModel::Failed, self),
            }
        }
    }
}

/// Where a registration stands, and what the store holds, once the store
/// has answered every request of the transaction. Request number `i` fails
/// if `works[i]` is false, and a row that it inserts gets the id `ids[i]`.
/// The run ends where the registration is over or wants something other
/// than the durable store.
pub open spec fn redeem(
    step: StepModel,
    db: Database,
    works: Seq<bool>,
    ids: Seq<u128>,
    fresh: Seq<char>,
) -> (StepModel, Database)
    decreases works.len(),
{
    match step {
        StepModel::Perform { state, request, .. } => {
            if Database::serves(request) && works.len() > 0 && ids.len() > 0 {
                let (event, then) = db.serve(request, works[0], ids[0]);
                redeem(next_model(state, event, fresh), then, works.drop_first(), ids.drop_first(), fresh)
            } else {
                (step, db)
            }
        },
        StepModel::Finish { .. } => (step, db),
    }
}

/// What a registration that went through leaves behind: one more account
/// for the email, and, if a profile was asked for, one more profile, owned
/// by the account and set as its default.
pub open spec fn registered(
    before: Tables,
    email: Seq<char>,
    create_profile: bool,
    display_name: Option<Seq<char>>,
    username: Option<Seq<char>>,
    bio: Option<Seq<char>>,
    account_id: u128,
    profile_id: u128,
) -> Tables {
    if create_profile {
        Tables {
            accounts: before.accounts.push(
                AccountRow { id: account_id, email, default_profile: Some(profile_id) },
            ),
            profiles: before.profiles.push(
                ProfileRow { id: profile_id, username, account_id, display_name, bio },
            ),
        }
    } else {
        Tables {
            accounts: before.accounts.push(
                AccountRow { id: account_id, email, default_profile: None },
            ),
            profiles: before.profiles,
        }
    }
}

/// A registration is all or nothing. Whichever requests of its transaction
/// fail, it leaves no transaction open, and the tables are either what they
/// were, or hold exactly the new account, with exactly the new profile as
/// its default if one was asked for. The second is the case exactly when
/// the registration goes on to start the session. With such a store the
/// account that was just inserted is always there to be pointed at its
/// profile, so the registration never fails for want of it.
pub proof fn law_registration_all_or_nothing(
    db: Database,
    jar: Seq<(Seq<char>, Seq<char>)>,
    create_profile: Option<Seq<char>>,
    display_name: Option<Seq<char>>,
    username: Option<Seq<char>>,
    bio: Option<Seq<char>>,
    works: Seq<bool>,
    ids: Seq<u128>,
    fresh: Seq<char>,
)
    requires
        db.pending is None,
        works.len() >= 6,
        ids.len() >= 6,
        !db.committed.has_account(ids[1]),
    ensures
        ({
            let start = register_start_model(jar, create_profile, display_name, username, bio);
            let (end, after) = redeem(start, db, works, ids, fresh);
            &&& after.pending is None
            &&& end is Finish ==> after.committed == db.committed
            &&& end is Finish ==> end->outcome != Outcome::Failed(AuthError::AccountLinkFailure)
            &&& end is Perform ==> {
                &&& end->request is PutSession
                &&& after.committed == registered(
                    db.committed,
                    cookie_value(jar, REGISTRATION_EMAIL_COOKIE@),
                    create_profile == Some("true"@),
                    display_name,
                    username,
                    bio,
                    ids[1],
                    ids[2],
                )
            }
        }),
{
    reveal_with_fuel(redeem, 8);
    let start = register_start_model(jar, create_profile, display_name, username, bio);
    let later = works.drop_first();
    assert(ids.drop_first()[0] == ids[1]);
    assert(ids.drop_first().drop_first()[0] == ids[2]);
    if start is Perform && works[0] && later[0] && create_profile == Some("true"@)
        && later.drop_first()[0] {
        // The one case in which an account is pointed at a profile: the
        // update finds the new account, and only that one.
        let email = cookie_value(jar, REGISTRATION_EMAIL_COOKIE@);
        let tables = db.committed.with_account(
            AccountRow { id: ids[1], email, default_profile: None },
        ).with_profile(
            ProfileRow { id: ids[2], username, account_id: ids[1], display_name, bio },
        );
        assert(tables.accounts[db.committed.accounts.len() as int].id == ids[1]);
        assert(tables.linked(ids[1], ids[2]).accounts =~= db.committed.accounts.push(
            AccountRow { id: ids[1], email, default_profile: Some(ids[2]) },
        ));
    }
}

} // verus!
