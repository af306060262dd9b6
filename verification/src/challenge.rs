//! Login by email: a challenge is issued while the right response travels
//! by mail, and the answer is then checked against the stored challenge.
//!
//! A wrong answer is rejected without a reason: whether the challenge was
//! never issued, has expired, or the email or the response was wrong cannot
//! be told from the outcome.

use crate::cookie::{
    cookie_value, get_cookie, remove_cookie, removal_cookie_model, set_cookie, site_cookie,
    site_cookie_model, ResponseModel, ResponseOptions, CHALLENGE_COOKIE,
    LOGIN_CODE_EXPIRATION_MIN, LOGIN_CODE_EXPIRATION_SEC, LOGIN_EMAIL_COOKIE,
};
use crate::effect::{Event, EventModel, Request, RequestModel, StoredChallengeModel};
use crate::error::AuthError;
use crate::flow::{ask, fail, Outcome, State, StateModel, Step, StepModel};
use crate::key::{email_auth_code, email_auth_code_key};
use crate::mail::{is_valid_email, login_code, login_code_model, valid_email};
use crate::registration::{reserve, reserve_model};
use crate::session::{start_session, start_session_model};
use crate::token::{
    is_token, random_token, well_formed_token, CHALLENGE_REGCODE_LEN, MAX_ATTEMPTS, RESPONSE_LEN,
};
use vstd::prelude::*;
use vstd::string::*;

verus! {

/// The first step of issuing a challenge for `email`, with `response` as
/// the secret to be mailed: nothing but failure for an address that mail
/// cannot go to, and else the mail, before anything is stored.
pub open spec fn issue_start_model(email: Seq<char>, response: Seq<char>) -> StepModel {
    if is_valid_email(email) {
        StepModel::ask(
            StateModel::Mailing { email, response },
            RequestModel::SendMail {
                mail: login_code_model(email, response, LOGIN_CODE_EXPIRATION_MIN),
            },
        )
    } else {
        StepModel::fail(AuthError::InvalidInput)
    }
}

/// The request that looks for the key of `challenge`, as attempt `attempt`.
pub open spec fn probe_model(
    email: Seq<char>,
    response: Seq<char>,
    challenge: Seq<char>,
    attempt: u8,
) -> StepModel {
    StepModel::ask(
        StateModel::Probing { email, response, challenge, attempt },
        RequestModel::KeyExists { key: email_auth_code_key(challenge) },
    )
}

/// After the mail: once it is with the transport, the key of a first
/// challenge token is looked for. Nothing is stored for a mail that failed.
pub open spec fn after_mail_model(
    email: Seq<char>,
    response: Seq<char>,
    event: EventModel,
    fresh: Seq<char>,
) -> StepModel {
    if event is Completed {
        probe_model(email, response, fresh, 1)
    } else {
        StepModel::fail(AuthError::MailDeliveryFailed)
    }
}

/// After a key was looked for: a free key takes the challenge; a taken one
/// leads to another token, up to the last attempt.
pub open spec fn after_probe_model(
    email: Seq<char>,
    response: Seq<char>,
    challenge: Seq<char>,
    attempt: u8,
    event: EventModel,
    fresh: Seq<char>,
) -> StepModel {
    match event {
        EventModel::Exists(found) => {
            if !found {
                StepModel::ask(
                    StateModel::WritingChallenge { email, challenge },
                    RequestModel::PutChallenge {
                        key: email_auth_code_key(challenge),
                        email,
                        response,
                        ttl_secs: LOGIN_CODE_EXPIRATION_SEC,
                    },
                )
            } else if attempt >= MAX_ATTEMPTS {
                StepModel::fail(AuthError::EntropyExhausted)
            } else {
                probe_model(email, response, fresh, (attempt + 1) as u8)
            }
        },
        _ => StepModel::fail(AuthError::StoreUnavailable),
    }
}

/// What the browser gets once a challenge stands: the token and the email
/// as cookies that last as long as the challenge, and the way to the form
/// for the answer.
pub open spec fn challenge_issued_response(email: Seq<char>, challenge: Seq<char>) -> ResponseModel {
    ResponseModel::empty().with_cookie(
        site_cookie_model(CHALLENGE_COOKIE@, challenge, LOGIN_CODE_EXPIRATION_SEC, false),
    ).with_cookie(
        site_cookie_model(LOGIN_EMAIL_COOKIE@, email, LOGIN_CODE_EXPIRATION_SEC, false),
    ).with_redirect("/auth/email/challenge"@)
}

/// After the challenge was written.
pub open spec fn after_challenge_written_model(
    email: Seq<char>,
    challenge: Seq<char>,
    event: EventModel,
) -> StepModel {
    if event is Completed {
        StepModel::Finish {
            outcome: Outcome::Completed,
            response: challenge_issued_response(email, challenge),
        }
    } else {
        StepModel::fail(AuthError::StoreUnavailable)
    }
}

/// Whether an answer has the shape that an answer can have at all.
pub open spec fn answer_well_formed(
    email: Seq<char>,
    challenge: Seq<char>,
    response: Seq<char>,
) -> bool {
    &&& email.len() > 0
    &&& is_token(challenge, CHALLENGE_REGCODE_LEN as nat)
    &&& is_token(response, RESPONSE_LEN as nat)
}

/// The rejection of an answer.
pub open spec fn rejected() -> StepModel {
    StepModel::Finish { outcome: Outcome::Rejected, response: ResponseModel::empty() }
}

/// The first step of answering a challenge: email and token come from the
/// cookies in `jar`. A malformed answer is rejected before anything is read.
pub open spec fn answer_start_model(
    jar: Seq<(Seq<char>, Seq<char>)>,
    response: Seq<char>,
) -> StepModel {
    let email = cookie_value(jar, LOGIN_EMAIL_COOKIE@);
    let challenge = cookie_value(jar, CHALLENGE_COOKIE@);
    if answer_well_formed(email, challenge, response) {
        StepModel::ask(
            StateModel::ReadingChallenge { email, challenge, response },
            RequestModel::GetChallenge { key: email_auth_code_key(challenge) },
        )
    } else {
        rejected()
    }
}

/// Whether the stored challenge is there, is whole, and holds exactly this
/// email and this response.
pub open spec fn answer_matches(
    email: Seq<char>,
    response: Seq<char>,
    record: Option<StoredChallengeModel>,
) -> bool {
    match record {
        Some(stored) => stored.email == Some(email) && stored.response == Some(response),
        None => false,
    }
}

/// What is set once an answer is accepted: both login cookies go.
pub open spec fn answer_accepted_response() -> ResponseModel {
    ResponseModel::empty().with_cookie(removal_cookie_model(CHALLENGE_COOKIE@)).with_cookie(
        removal_cookie_model(LOGIN_EMAIL_COOKIE@),
    )
}

/// After the challenge was read: a right answer uses the challenge up, so
/// its key is cleaned up, and the account of the email is looked up.
pub open spec fn after_challenge_read_model(
    email: Seq<char>,
    challenge: Seq<char>,
    response: Seq<char>,
    event: EventModel,
) -> StepModel {
    match event {
        EventModel::Challenge(record) => {
            if answer_matches(email, response, record) {
                StepModel::Perform {
                    state: StateModel::FindingAccount { email, set: answer_accepted_response() },
                    request: RequestModel::FindAccount { email },
                    cleanup: Some(email_auth_code_key(challenge)),
                }
            } else {
                rejected()
            }
        },
        _ => StepModel::fail(AuthError::StoreUnavailable),
    }
}

/// After the account was looked up: an account gets a session, an unknown
/// email gets a registration code.
pub open spec fn after_account_lookup_model(
    email: Seq<char>,
    set: ResponseModel,
    event: EventModel,
    fresh: Seq<char>,
) -> StepModel {
    match event {
        EventModel::Account(Some(account)) => start_session_model(
            set,
            account.account_id,
            account.username,
            account.display_name,
            fresh,
            Some("/"@),
        ),
        EventModel::Account(None) => reserve_model(email, fresh, 1, set),
        _ => StepModel::Finish {
            outcome: Outcome::Failed(AuthError::StoreUnavailable),
            response: set,
        },
    }
}

/// Nothing is stored for a login code that is not on its way: issuing
/// begins with the mail or, for a bad address, ends at once, and a mail
/// that fails ends it before the store is asked for anything.
pub proof fn law_nothing_is_stored_without_mail(
    email: Seq<char>,
    response: Seq<char>,
    event: EventModel,
    fresh: Seq<char>,
)
    ensures
        !is_valid_email(email) ==> issue_start_model(email, response) == StepModel::fail(
            AuthError::InvalidInput,
        ),
        is_valid_email(email) ==> issue_start_model(email, response) is Perform
            && issue_start_model(email, response)->request is SendMail,
        !(event is Completed) ==> after_mail_model(email, response, event, fresh)
            == StepModel::fail(AuthError::MailDeliveryFailed),
{
}

/// Begins to issue a login challenge for `email` with the given response
/// secret.
pub fn get_email_login_challenge_with(email: String, response: String) -> (step: Step)
    ensures
        step@ == issue_start_model(email@, response@),
{
    if !valid_email(email.as_str()) {
        return fail(AuthError::InvalidInput);
    }
    let mail = login_code(email.as_str(), response.as_str(), LOGIN_CODE_EXPIRATION_MIN);
    ask(State::Mailing { email, response }, Request::SendMail { mail })
}

/// Begins to issue a login challenge for `email`. The response secret is
/// drawn at random; for an address that mail cannot go to nothing is drawn.
pub fn get_email_login_challenge(email: String) -> (step: Step)
    ensures
        !is_valid_email(email@) ==> step@ == StepModel::fail(AuthError::InvalidInput),
        is_valid_email(email@) ==> exists|response: Seq<char>|
            is_token(response, RESPONSE_LEN as nat) && step@ == #[trigger] issue_start_model(
                email@,
                response,
            ),
{
    if !valid_email(email.as_str()) {
        return fail(AuthError::InvalidInput);
    }
    let response = random_token(RESPONSE_LEN);
    get_email_login_challenge_with(email, response)
}

/// Asks whether the key of `challenge` is taken.
fn probe(email: String, response: String, challenge: String, attempt: u8) -> (step: Step)
    ensures
        step@ == probe_model(email@, response@, challenge@, attempt),
{
    let key = email_auth_code(challenge.as_str());
    ask(State::Probing { email, response, challenge, attempt }, Request::KeyExists { key })
}

/// Goes on after the mail, see [`after_mail_model`].
pub(crate) fn after_mail(
    email: String,
    response: String,
    event: Event,
    fresh: String,
) -> (step: Step)
    ensures
        step@ == after_mail_model(email@, response@, event@, fresh@),
{
    match event {
        Event::Completed => probe(email, response, fresh, 1),
        _ => fail(AuthError::MailDeliveryFailed),
    }
}

/// Goes on after a key was looked for, see [`after_probe_model`].
pub(crate) fn after_probe(
    email: String,
    response: String,
    challenge: String,
    attempt: u8,
    event: Event,
    fresh: String,
) -> (step: Step)
    ensures
        step@ == after_probe_model(email@, response@, challenge@, attempt, event@, fresh@),
{
    match event {
        Event::Exists(found) => {
            if !found {
                let key = email_auth_code(challenge.as_str());
                let request = Request::PutChallenge {
                    key,
                    email: email.clone(),
                    response,
                    ttl_secs: LOGIN_CODE_EXPIRATION_SEC,
                };
                ask(State::WritingChallenge { email, challenge }, request)
            } else if attempt >= MAX_ATTEMPTS {
                fail(AuthError::EntropyExhausted)
            } else {
                probe(email, response, fresh, attempt + 1)
            }
        },
        _ => fail(AuthError::StoreUnavailable),
    }
}

/// Ends the issuing of a challenge, see [`after_challenge_written_model`].
pub(crate) fn after_challenge_written(
    email: String,
    challenge: String,
    event: Event,
) -> (step: Step)
    ensures
        step@ == after_challenge_written_model(email@, challenge@, event@),
{
    match event {
        Event::Completed => {
            let mut response = ResponseOptions::new();
            set_cookie(
                &mut response,
                site_cookie(CHALLENGE_COOKIE, challenge, LOGIN_CODE_EXPIRATION_SEC, false),
            );
            set_cookie(
                &mut response,
                site_cookie(LOGIN_EMAIL_COOKIE, email, LOGIN_CODE_EXPIRATION_SEC, false),
            );
            response.redirect("/auth/email/challenge");
            Step::Finish { outcome: Outcome::Completed, response }
        },
        _ => fail(AuthError::StoreUnavailable),
    }
}

/// Begins to check an answer to a login challenge. The email and the
/// challenge token are read from the cookies of the request, never taken
/// from the caller, and a malformed answer is rejected like a wrong one,
/// before anything is read from the store.
pub fn answer_email_login_challenge(
    request: &Vec<(String, String)>,
    response: String,
) -> (step: Step)
    ensures
        step@ == answer_start_model(request.deep_view(), response@),
{
    let email = get_cookie(request, LOGIN_EMAIL_COOKIE);
    let challenge = get_cookie(request, CHALLENGE_COOKIE);
    if email.as_str().is_empty() || !well_formed_token(challenge.as_str(), CHALLENGE_REGCODE_LEN)
        || !well_formed_token(response.as_str(), RESPONSE_LEN) {
        return Step::Finish { outcome: Outcome::Rejected, response: ResponseOptions::new() };
    }
    let key = email_auth_code(challenge.as_str());
    ask(State::ReadingChallenge { email, challenge, response }, Request::GetChallenge { key })
}

/// Checks an answer against the challenge that was read, see
/// [`after_challenge_read_model`].
pub(crate) fn after_challenge_read(
    email: String,
    challenge: String,
    response: String,
    event: Event,
) -> (step: Step)
    ensures
        step@ == after_challenge_read_model(email@, challenge@, response@, event@),
{
    match event {
        Event::Challenge(record) => {
            let matches = match record {
                Some(stored) => {
                    let email_matches = match stored.email {
                        Some(stored_email) => stored_email == email,
                        None => false,
                    };
                    let response_matches = match stored.response {
                        Some(stored_response) => stored_response == response,
                        None => false,
                    };
                    email_matches && response_matches
                },
                None => false,
            };
            if matches {
                let mut set = ResponseOptions::new();
                remove_cookie(&mut set, CHALLENGE_COOKIE);
                remove_cookie(&mut set, LOGIN_EMAIL_COOKIE);
                let cleanup = email_auth_code(challenge.as_str());
                let request = Request::FindAccount { email: email.clone() };
                Step::Perform {
                    state: State::FindingAccount { email, set },
                    request,
                    cleanup: Some(cleanup),
                }
            } else {
                Step::Finish { outcome: Outcome::Rejected, response: ResponseOptions::new() }
            }
        },
        _ => fail(AuthError::StoreUnavailable),
    }
}

/// Goes on after the account was looked up, see
/// [`after_account_lookup_model`].
pub(crate) fn after_account_lookup(
    email: String,
    set: ResponseOptions,
    event: Event,
    fresh: String,
) -> (step: Step)
    ensures
        step@ == after_account_lookup_model(email@, set@, event@, fresh@),
{
    match event {
        Event::Account(Some(account)) => start_session(
            set,
            account.account_id,
            account.username,
            account.display_name,
            fresh,
            Some(String::from_str("/")),
        ),
        Event::Account(None) => reserve(email, fresh, 1, set),
        _ => Step::Finish { outcome: Outcome::Failed(AuthError::StoreUnavailable), response: set },
    }
}

} // verus!
