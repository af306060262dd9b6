//! The ephemeral store as the operations see it, and what follows from it
//! for challenges and sessions.
//!
//! The store itself is the caller's. This is its behaviour written down: a
//! map from keys to records, where a record that expires is a record that
//! someone removed. It is used to state what holds when the outcomes that
//! an operation is given are the ones such a store gives.

use crate::challenge::{
    after_account_lookup_model, after_mail_model, answer_start_model, answer_well_formed,
    probe_model, rejected,
};
use crate::cookie::{
    cookie_lookup, cookie_value, site_cookie_model, ResponseModel, CHALLENGE_COOKIE,
    LOGIN_EMAIL_COOKIE, SESSION_COOKIE, SESSION_TTL_SEC,
};
use crate::effect::{
    AccountRecordModel, EventModel, RequestModel, StoredChallengeModel, StoredSessionModel,
};
use crate::error::AuthError;
use crate::flow::{next_model, Outcome, StateModel, StepModel};
use crate::ident::{lemma_id_text_parses_back, parsed_id, AccountId};
use crate::key::{
    email_auth_code_key, lemma_key_determines_secret, lemma_namespaces_apart,
    new_registration_key, session_key,
};
use crate::registration::{code_issued_response, reserve_model};
use crate::session::{
    get_session_for_model, get_session_model, is_valid_session_id, start_session_model,
    text_or_empty, ResolvedModel, SessionInfoModel, SessionLookupModel,
};
use crate::token::MAX_ATTEMPTS;
use vstd::prelude::*;

verus! {

/// A record of the ephemeral store.
pub enum Entry {
    /// A login challenge: the email it was issued for and the response that
    /// was mailed there.
    Challenge { email: Seq<char>, response: Seq<char> },
    /// A registration code: the email it was issued for.
    Registration { email: Seq<char> },
    /// A session.
    Session { account_id: Seq<char>, username: Seq<char>, display_name: Seq<char> },
}

/// The records of the ephemeral store, by key.
pub struct Store {
    pub entries: Map<Seq<char>, Entry>,
}

impl Store {
    /// Whether there is a record under `key`.
    pub open spec fn holds(self, key: Seq<char>) -> bool {
        self.entries.dom().contains(key)
    }

    /// The store with `entry` under `key`.
    pub open spec fn with(self, key: Seq<char>, entry: Entry) -> Store {
        Store { entries: self.entries.insert(key, entry) }
    }

    /// The store with nothing under `key`.
    pub open spec fn without(self, key: Seq<char>) -> Store {
        Store { entries: self.entries.remove(key) }
    }

    /// The store once a cleanup, if there was one, has been carried out.
    pub open spec fn cleaned(self, cleanup: Option<Seq<char>>) -> Store {
        match cleanup {
            Some(key) => self.without(key),
            None => self,
        }
    }

    /// What the store answers to `request`.
    pub open spec fn reply(self, request: RequestModel) -> EventModel {
        match request {
            RequestModel::KeyExists { key } => EventModel::Exists(self.holds(key)),
            RequestModel::PutChallenge { .. } => EventModel::Completed,
            RequestModel::GetChallenge { key } => EventModel::Challenge(
                if self.holds(key) {
                    match self.entries[key] {
                        Entry::Challenge { email, response } => Some(
                            StoredChallengeModel { email: Some(email), response: Some(response) },
                        ),
                        _ => None,
                    }
                } else {
                    None
                },
            ),
            RequestModel::PutIfAbsent { key, .. } => EventModel::Stored(!self.holds(key)),
            RequestModel::PutSession { .. } => EventModel::Completed,
            RequestModel::GetSession { key } => EventModel::Session(
                if self.holds(key) {
                    match self.entries[key] {
                        Entry::Session { account_id, username, display_name } => StoredSessionModel {
                            account_id,
                            username,
                            display_name,
                        },
                        _ => Store::no_session(),
                    }
                } else {
                    Store::no_session()
                },
            ),
            _ => EventModel::Failed,
        }
    }

    /// What reading a session gives where there is none: three empty texts.
    pub open spec fn no_session() -> StoredSessionModel {
        StoredSessionModel {
            account_id: Seq::empty(),
            username: Seq::empty(),
            display_name: Seq::empty(),
        }
    }

    /// The store after it has carried out `request`.
    pub open spec fn after(self, request: RequestModel) -> Store {
        match request {
            RequestModel::PutChallenge { key, email, response, .. } => self.with(
                key,
                Entry::Challenge { email, response },
            ),
            RequestModel::PutIfAbsent { key, value, .. } => if self.holds(key) {
                self
            } else {
                self.with(key, Entry::Registration { email: value })
            },
            RequestModel::PutSession { key, account_id, username, display_name, .. } => self.with(
                key,
                Entry::Session { account_id, username, display_name },
            ),
            _ => self,
        }
    }

    /// Where an operation stands once the store has answered the request of
    /// `step`; an operation that is over stays where it is.
    pub open spec fn answer(self, step: StepModel, fresh: Seq<char>) -> StepModel {
        match step {
            StepModel::Perform { state, request, .. } => next_model(
                state,
                self.reply(request),
                fresh,
            ),
            StepModel::Finish { .. } => step,
        }
    }
}

/// Whether the store holds the challenge `challenge` for exactly this email
/// and this response.
pub open spec fn challenge_stands(
    store: Store,
    email: Seq<char>,
    challenge: Seq<char>,
    response: Seq<char>,
) -> bool {
    &&& store.holds(email_auth_code_key(challenge))
    &&& store.entries[email_auth_code_key(challenge)] == Entry::Challenge { email, response }
}

/// An answer is accepted exactly when it is well formed and the store holds
/// its challenge with this email and this response. Every other answer ends
/// in one and the same rejection, which says nothing of the reason: a
/// malformed answer, a token that was never issued or has expired, a wrong
/// email and a wrong response cannot be told apart.
pub proof fn law_answers_accepted_or_rejected_alike(
    store: Store,
    jar: Seq<(Seq<char>, Seq<char>)>,
    response: Seq<char>,
    fresh: Seq<char>,
)
    ensures
        ({
            let email = cookie_value(jar, LOGIN_EMAIL_COOKIE@);
            let challenge = cookie_value(jar, CHALLENGE_COOKIE@);
            let end = store.answer(answer_start_model(jar, response), fresh);
            if answer_well_formed(email, challenge, response) && challenge_stands(
                store,
                email,
                challenge,
                response,
            ) {
                &&& end is Perform
                &&& end->request == RequestModel::FindAccount { email }
                &&& end->cleanup == Some(email_auth_code_key(challenge))
            } else {
                end == rejected()
            }
        }),
{
}

/// A malformed answer is rejected without any request to the store.
pub proof fn law_malformed_answer_reads_nothing(
    jar: Seq<(Seq<char>, Seq<char>)>,
    response: Seq<char>,
)
    requires
        !answer_well_formed(
            cookie_value(jar, LOGIN_EMAIL_COOKIE@),
            cookie_value(jar, CHALLENGE_COOKIE@),
            response,
        ),
    ensures
        answer_start_model(jar, response) == rejected(),
        answer_start_model(jar, response) is Finish,
{
}

/// A malformed session token is refused without any request to the store.
pub proof fn law_malformed_session_reads_nothing(jar: Seq<(Seq<char>, Seq<char>)>)
    requires
        cookie_lookup(jar, SESSION_COOKIE@) matches Some(session_id) && !is_valid_session_id(
            session_id,
        ),
    ensures
        get_session_model(jar) == SessionLookupModel::Refused(AuthError::CorruptSession),
{
}

/// The right answer to a challenge that stands is accepted, and uses the
/// challenge up: once its key has been cleaned up, the same answer is
/// rejected.
pub proof fn law_answer_accepted_once(
    store: Store,
    jar: Seq<(Seq<char>, Seq<char>)>,
    response: Seq<char>,
    fresh: Seq<char>,
)
    requires
        answer_well_formed(
            cookie_value(jar, LOGIN_EMAIL_COOKIE@),
            cookie_value(jar, CHALLENGE_COOKIE@),
            response,
        ),
        challenge_stands(
            store,
            cookie_value(jar, LOGIN_EMAIL_COOKIE@),
            cookie_value(jar, CHALLENGE_COOKIE@),
            response,
        ),
    ensures
        ({
            let first = store.answer(answer_start_model(jar, response), fresh);
            &&& first is Perform
            &&& first->state is FindingAccount
            &&& store.cleaned(first->cleanup).answer(answer_start_model(jar, response), fresh)
                == rejected()
        }),
{
}

/// An accepted answer ends as completed, whether or not the email has an
/// account, as long as the store serves what it is asked. An account gets
/// its session cookie and is sent to the start page. An unknown email gets
/// its registration cookies, no session cookie, and is sent to the
/// registration form.
pub proof fn law_accepted_answer_completes(
    store: Store,
    email: Seq<char>,
    set: ResponseModel,
    account: Option<AccountRecordModel>,
    fresh: Seq<char>,
    later: Seq<char>,
)
    requires
        account is None ==> !store.holds(new_registration_key(fresh)),
    ensures
        ({
            let asked = next_model(
                StateModel::FindingAccount { email, set },
                EventModel::Account(account),
                fresh,
            );
            let end = store.answer(asked, later);
            &&& asked is Perform
            &&& asked->cleanup is None
            &&& account is Some ==> end == (StepModel::Finish {
                outcome: Outcome::Completed,
                response: set.with_cookie(
                    site_cookie_model(SESSION_COOKIE@, fresh, SESSION_TTL_SEC, true),
                ).with_redirect("/"@),
            })
            &&& account is None ==> end == (StepModel::Finish {
                outcome: Outcome::Completed,
                response: code_issued_response(email, fresh, set),
            })
        }),
{
}

/// What an accepted answer cleans up is its own challenge and nothing
/// else: every session and every registration code is still there
/// afterwards.
pub proof fn law_answer_cleans_up_only_its_challenge(
    store: Store,
    jar: Seq<(Seq<char>, Seq<char>)>,
    response: Seq<char>,
    fresh: Seq<char>,
    other: Seq<char>,
)
    ensures
        ({
            let end = store.answer(answer_start_model(jar, response), fresh);
            end is Perform ==> {
                let cleaned = store.cleaned(end->cleanup);
                &&& cleaned.holds(session_key(other)) == store.holds(session_key(other))
                &&& cleaned.holds(new_registration_key(other)) == store.holds(
                    new_registration_key(other),
                )
            }
        }),
{
    lemma_namespaces_apart(cookie_value(jar, CHALLENGE_COOKIE@), other);
}

/// The challenge that issuing writes is the one that the right answer is
/// accepted against: after the write the store holds the challenge for the
/// email it was issued for and the response that was mailed.
pub proof fn law_issued_challenge_stands(
    store: Store,
    email: Seq<char>,
    response: Seq<char>,
    challenge: Seq<char>,
    attempt: u8,
    fresh: Seq<char>,
)
    ensures
        ({
            let write = next_model(
                StateModel::Probing { email, response, challenge, attempt },
                EventModel::Exists(false),
                fresh,
            );
            &&& write is Perform
            &&& challenge_stands(store.after(write->request), email, challenge, response)
        }),
{
}

/// A challenge is only written under a key that the store has just found
/// free. So of two challenges that are issued one after the other, the
/// first still standing, the second has another token, and writing it
/// leaves the first as it was.
pub proof fn law_second_challenge_has_another_token(
    store: Store,
    first_email: Seq<char>,
    first_response: Seq<char>,
    first: Seq<char>,
    first_attempt: u8,
    email: Seq<char>,
    response: Seq<char>,
    second: Seq<char>,
    attempt: u8,
    fresh: Seq<char>,
)
    ensures
        ({
            let first_write = next_model(
                StateModel::Probing {
                    email: first_email,
                    response: first_response,
                    challenge: first,
                    attempt: first_attempt,
                },
                EventModel::Exists(false),
                fresh,
            );
            let then = store.after(first_write->request);
            let probed = then.answer(probe_model(email, response, second, attempt), fresh);
            probed is Perform && probed->request is PutChallenge ==> {
                &&& !then.holds(email_auth_code_key(second))
                &&& second != first
                &&& challenge_stands(
                    then.after(probed->request),
                    first_email,
                    first,
                    first_response,
                )
            }
        }),
{
    lemma_key_determines_secret(first, second);
}

/// A session that was just written resolves to what it was written with:
/// the same account, and the names that were given, an absent name being
/// the empty text. Nothing is to be cleaned up.
pub proof fn law_session_round_trip(
    store: Store,
    jar: Seq<(Seq<char>, Seq<char>)>,
    set: ResponseModel,
    account_id: AccountId,
    username: Option<Seq<char>>,
    display_name: Option<Seq<char>>,
    session_id: Seq<char>,
    then: Option<Seq<char>>,
)
    requires
        is_valid_session_id(session_id),
        cookie_lookup(jar, SESSION_COOKIE@) == Some(session_id),
    ensures
        ({
            let write = start_session_model(set, account_id, username, display_name, session_id, then);
            let written = store.after(write->request);
            &&& write is Perform
            &&& get_session_model(jar) matches SessionLookupModel::Read { session_id: asked, request }
            &&& asked == session_id
            &&& get_session_for_model(session_id, written.reply(request)) == ResolvedModel {
                result: Ok(
                    SessionInfoModel {
                        account_id,
                        session_id,
                        username: text_or_empty(username),
                        display_name: text_or_empty(display_name),
                    },
                ),
                cleanup: None,
            }
        }),
{
    lemma_id_text_parses_back(account_id.value);
}

/// A session record without an account never resolves: the session has
/// expired or is corrupt. If the record still holds a name, its key is gone
/// once the cleanup has been carried out.
pub proof fn law_session_without_account(
    store: Store,
    session_id: Seq<char>,
    username: Seq<char>,
    display_name: Seq<char>,
)
    requires
        is_valid_session_id(session_id),
        store.holds(session_key(session_id)),
        store.entries[session_key(session_id)] == (Entry::Session {
            account_id: Seq::empty(),
            username,
            display_name,
        }),
    ensures
        ({
            let resolved = get_session_for_model(
                session_id,
                store.reply(RequestModel::GetSession { key: session_key(session_id) }),
            );
            &&& resolved.result == Err::<SessionInfoModel, AuthError>(
                AuthError::SessionExpiredOrCorrupt,
            )
            &&& username.len() > 0 || display_name.len() > 0 ==> !store.cleaned(
                resolved.cleanup,
            ).holds(session_key(session_id))
        }),
{
}

/// A session record whose account is no identity never resolves: the
/// session is corrupt, and its key is gone once the cleanup has been
/// carried out.
pub proof fn law_session_with_broken_account(
    store: Store,
    session_id: Seq<char>,
    account_id: Seq<char>,
    username: Seq<char>,
    display_name: Seq<char>,
)
    requires
        is_valid_session_id(session_id),
        store.holds(session_key(session_id)),
        store.entries[session_key(session_id)] == (Entry::Session {
            account_id,
            username,
            display_name,
        }),
        account_id.len() > 0,
        parsed_id(account_id) is None,
    ensures
        ({
            let resolved = get_session_for_model(
                session_id,
                store.reply(RequestModel::GetSession { key: session_key(session_id) }),
            );
            &&& resolved.result == Err::<SessionInfoModel, AuthError>(AuthError::CorruptSession)
            &&& !store.cleaned(resolved.cleanup).holds(session_key(session_id))
        }),
{
}

/// Where issuing a challenge stands when the mail has gone out and the
/// store has found each of the first `n` keys taken. `tokens[i]` is the
/// token that was drawn for attempt `i + 1`.
pub open spec fn issuing_after_collisions(
    email: Seq<char>,
    response: Seq<char>,
    tokens: Seq<Seq<char>>,
    n: nat,
) -> StepModel
    decreases n,
{
    if n == 0 {
        after_mail_model(email, response, EventModel::Completed, tokens[0])
    } else {
        match issuing_after_collisions(email, response, tokens, (n - 1) as nat) {
            StepModel::Perform { state, .. } => next_model(
                state,
                EventModel::Exists(true),
                tokens[n as int],
            ),
            over => over,
        }
    }
}

/// With a store in which every key is taken, issuing a challenge looks for
/// a key ten times, each time with the token drawn for that attempt, and
/// after the tenth gives up for want of entropy: not sooner and not later.
pub proof fn law_issuing_gives_up_after_ten_attempts(
    email: Seq<char>,
    response: Seq<char>,
    tokens: Seq<Seq<char>>,
    n: nat,
)
    requires
        n <= MAX_ATTEMPTS,
    ensures
        n < MAX_ATTEMPTS ==> issuing_after_collisions(email, response, tokens, n) == probe_model(
            email,
            response,
            tokens[n as int],
            (n + 1) as u8,
        ),
        n == MAX_ATTEMPTS ==> issuing_after_collisions(email, response, tokens, n)
            == StepModel::fail(AuthError::EntropyExhausted),
    decreases n,
{
    if n > 0 {
        law_issuing_gives_up_after_ten_attempts(email, response, tokens, (n - 1) as nat);
    }
}

/// Where an accepted login of an unknown email stands when the store has
/// found each of the first `n` registration keys taken. `tokens[i]` is the
/// code that was drawn for attempt `i + 1`.
pub open spec fn reserving_after_collisions(
    email: Seq<char>,
    set: ResponseModel,
    tokens: Seq<Seq<char>>,
    n: nat,
) -> StepModel
    decreases n,
{
    if n == 0 {
        after_account_lookup_model(email, set, EventModel::Account(None), tokens[0])
    } else {
        match reserving_after_collisions(email, set, tokens, (n - 1) as nat) {
            StepModel::Perform { state, .. } => next_model(
                state,
                EventModel::Stored(false),
                tokens[n as int],
            ),
            over => over,
        }
    }
}

/// With a store in which every key is taken, a registration code is tried
/// ten times, each time with the code drawn for that attempt, and after the
/// tenth the login gives up for want of entropy: not sooner and not later.
pub proof fn law_reserving_gives_up_after_ten_attempts(
    email: Seq<char>,
    set: ResponseModel,
    tokens: Seq<Seq<char>>,
    n: nat,
)
    requires
        n <= MAX_ATTEMPTS,
    ensures
        n < MAX_ATTEMPTS ==> reserving_after_collisions(email, set, tokens, n) == reserve_model(
            email,
            tokens[n as int],
            (n + 1) as u8,
            set,
        ),
        n == MAX_ATTEMPTS ==> reserving_after_collisions(email, set, tokens, n)
            == (StepModel::Finish {
            outcome: Outcome::Failed(AuthError::EntropyExhausted),
            response: set,
        }),
    decreases n,
{
    if n > 0 {
        law_reserving_gives_up_after_ten_attempts(email, set, tokens, (n - 1) as nat);
    }
}

} // verus!
