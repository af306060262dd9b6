//! Registration: a code binds a verified email to the registration form,
//! and redeeming it creates the account, with a profile if one was asked
//! for, in one transaction of the durable store.
//!
//! The record of a registration code is never deleted here: after a
//! registration, as after a cancellation, it is left to expire.

use crate::cookie::{
    cookie_value, get_cookie, remove_cookie, removal_cookie_model, set_cookie, site_cookie,
    site_cookie_model, ResponseModel, ResponseOptions, REGISTRATION_CODE_COOKIE,
    REGISTRATION_CODE_EXPIRATION_SEC, REGISTRATION_EMAIL_COOKIE,
};
use crate::effect::{Event, EventModel, Request, RequestModel};
use crate::error::AuthError;
use crate::flow::{
    ask, fail, Outcome, ProfileForm, ProfileFormModel, State, StateModel, Step, StepModel,
};
use crate::ident::{AccountId, ProfileId};
use crate::key::{new_registration, new_registration_key};
use crate::session::{start_session, start_session_model};
use crate::token::MAX_ATTEMPTS;
use vstd::prelude::*;
use vstd::string::*;

verus! {

/// The request that claims the key of `code` for `email`, as attempt
/// `attempt`: the key is set only if it is free.
pub open spec fn reserve_model(
    email: Seq<char>,
    code: Seq<char>,
    attempt: u8,
    set: ResponseModel,
) -> StepModel {
    StepModel::ask(
        StateModel::Reserving { email, code, attempt, set },
        RequestModel::PutIfAbsent {
            key: new_registration_key(code),
            value: email,
            ttl_secs: REGISTRATION_CODE_EXPIRATION_SEC,
        },
    )
}

/// What the browser gets with a registration code: the code in a cookie
/// that scripts cannot read, the email in one that they can, both lasting
/// as long as the code, and the way to the registration form.
pub open spec fn code_issued_response(
    email: Seq<char>,
    code: Seq<char>,
    set: ResponseModel,
) -> ResponseModel {
    set.with_cookie(
        site_cookie_model(REGISTRATION_CODE_COOKIE@, code, REGISTRATION_CODE_EXPIRATION_SEC, true),
    ).with_cookie(
        site_cookie_model(
            REGISTRATION_EMAIL_COOKIE@,
            email,
            REGISTRATION_CODE_EXPIRATION_SEC,
            false,
        ),
    ).with_redirect("/auth/register"@)
}

/// After a key was claimed: a claimed key ends the login as accepted; a
/// taken one leads to another code, up to the last attempt.
pub open spec fn after_reserve_model(
    email: Seq<char>,
    code: Seq<char>,
    attempt: u8,
    set: ResponseModel,
    event: EventModel,
    fresh: Seq<char>,
) -> StepModel {
    match event {
        EventModel::Stored(stored) => {
            if stored {
                StepModel::Finish {
                    outcome: Outcome::Completed,
                    response: code_issued_response(email, code, set),
                }
            } else if attempt >= MAX_ATTEMPTS {
                StepModel::Finish {
                    outcome: Outcome::Failed(AuthError::EntropyExhausted),
                    response: set,
                }
            } else {
                reserve_model(email, fresh, (attempt + 1) as u8, set)
            }
        },
        _ => StepModel::Finish {
            outcome: Outcome::Failed(AuthError::StoreUnavailable),
            response: set,
        },
    }
}

/// The first step of redeeming a registration: email and code come from
/// the cookies in `jar`, and without both nothing is begun.
pub open spec fn register_start_model(
    jar: Seq<(Seq<char>, Seq<char>)>,
    create_profile: Option<Seq<char>>,
    display_name: Option<Seq<char>>,
    username: Option<Seq<char>>,
    bio: Option<Seq<char>>,
) -> StepModel {
    let email = cookie_value(jar, REGISTRATION_EMAIL_COOKIE@);
    let code = cookie_value(jar, REGISTRATION_CODE_COOKIE@);
    if email.len() == 0 || code.len() == 0 {
        StepModel::fail(AuthError::MissingRegistrationState)
    } else {
        StepModel::ask(
            StateModel::Beginning {
                email,
                form: ProfileFormModel {
                    create_profile: create_profile == Some("true"@),
                    display_name,
                    username,
                    bio,
                },
            },
            RequestModel::BeginTransaction,
        )
    }
}

/// The transaction is abandoned and the registration will end in `error`.
pub open spec fn roll_back_model(error: AuthError) -> StepModel {
    StepModel::ask(StateModel::RollingBack { error }, RequestModel::Rollback)
}

/// The transaction is committed.
pub open spec fn commit_model(account_id: AccountId, form: ProfileFormModel) -> StepModel {
    StepModel::ask(StateModel::Committing { account_id, form }, RequestModel::Commit)
}

/// After the transaction was opened.
pub open spec fn after_begin_model(
    email: Seq<char>,
    form: ProfileFormModel,
    event: EventModel,
) -> StepModel {
    if event is Completed {
        StepModel::ask(
            StateModel::InsertingAccount { form },
            RequestModel::InsertAccount { email },
        )
    } else {
        StepModel::fail(AuthError::RegistrationFailed)
    }
}

/// After the account was inserted: the profile follows if one was asked
/// for, else the commit.
pub open spec fn after_account_inserted_model(form: ProfileFormModel, event: EventModel) -> StepModel {
    match event {
        EventModel::Inserted(id) => {
            let account_id = AccountId { value: id };
            if form.create_profile {
                StepModel::ask(
                    StateModel::InsertingProfile { account_id, form },
                    RequestModel::InsertProfile {
                        username: form.username,
                        account_id,
                        display_name: form.display_name,
                        bio: form.bio,
                    },
                )
            } else {
                commit_model(account_id, form)
            }
        },
        _ => roll_back_model(AuthError::RegistrationFailed),
    }
}

/// After the profile was inserted: the account is pointed at it.
pub open spec fn after_profile_inserted_model(
    account_id: AccountId,
    form: ProfileFormModel,
    event: EventModel,
) -> StepModel {
    match event {
        EventModel::Inserted(id) => StepModel::ask(
            StateModel::Linking { account_id, form },
            RequestModel::SetDefaultProfile { account_id, profile_id: ProfileId { value: id } },
        ),
        _ => roll_back_model(AuthError::RegistrationFailed),
    }
}

/// After the account was pointed at its profile: if no account was changed
/// the whole transaction is abandoned.
pub open spec fn after_link_model(
    account_id: AccountId,
    form: ProfileFormModel,
    event: EventModel,
) -> StepModel {
    match event {
        EventModel::Updated(rows) => {
            if rows == 0 {
                roll_back_model(AuthError::AccountLinkFailure)
            } else {
                commit_model(account_id, form)
            }
        },
        _ => roll_back_model(AuthError::RegistrationFailed),
    }
}

/// What is set once a registration is committed: both registration cookies
/// go.
pub open spec fn registered_response() -> ResponseModel {
    ResponseModel::empty().with_cookie(removal_cookie_model(REGISTRATION_CODE_COOKIE@)).with_cookie(
        removal_cookie_model(REGISTRATION_EMAIL_COOKIE@),
    )
}

/// After the commit: the new account gets its session.
pub open spec fn after_commit_model(
    account_id: AccountId,
    form: ProfileFormModel,
    event: EventModel,
    fresh: Seq<char>,
) -> StepModel {
    if event is Completed {
        start_session_model(
            registered_response(),
            account_id,
            form.username,
            form.display_name,
            fresh,
            Some("/"@),
        )
    } else {
        StepModel::fail(AuthError::RegistrationFailed)
    }
}

/// After the transaction was abandoned, however that went.
pub open spec fn after_rollback_model(error: AuthError) -> StepModel {
    StepModel::fail(error)
}

/// What cancelling a registration sets: the registration code cookie goes.
pub open spec fn cancel_registration_model() -> ResponseModel {
    ResponseModel::empty().with_cookie(removal_cookie_model(REGISTRATION_CODE_COOKIE@))
}

/// Asks for the key of `code` to be claimed for `email`.
pub(crate) fn reserve(
    email: String,
    code: String,
    attempt: u8,
    set: ResponseOptions,
) -> (step: Step)
    ensures
        step@ == reserve_model(email@, code@, attempt, set@),
{
    let key = new_registration(code.as_str());
    let request = Request::PutIfAbsent {
        key,
        value: email.clone(),
        ttl_secs: REGISTRATION_CODE_EXPIRATION_SEC,
    };
    ask(State::Reserving { email, code, attempt, set }, request)
}

/// Goes on after a key was claimed, see [`after_reserve_model`].
pub(crate) fn after_reserve(
    email: String,
    code: String,
    attempt: u8,
    set: ResponseOptions,
    event: Event,
    fresh: String,
) -> (step: Step)
    ensures
        step@ == after_reserve_model(email@, code@, attempt, set@, event@, fresh@),
{
    let mut set = set;
    match event {
        Event::Stored(stored) => {
            if stored {
                set_cookie(
                    &mut set,
                    site_cookie(
                        REGISTRATION_CODE_COOKIE,
                        code,
                        REGISTRATION_CODE_EXPIRATION_SEC,
                        true,
                    ),
                );
                set_cookie(
                    &mut set,
                    site_cookie(
                        REGISTRATION_EMAIL_COOKIE,
                        email,
                        REGISTRATION_CODE_EXPIRATION_SEC,
                        false,
                    ),
                );
                set.redirect("/auth/register");
                Step::Finish { outcome: Outcome::Completed, response: set }
            } else if attempt >= MAX_ATTEMPTS {
                Step::Finish {
                    outcome: Outcome::Failed(AuthError::EntropyExhausted),
                    response: set,
                }
            } else {
                reserve(email, fresh, attempt + 1, set)
            }
        },
        _ => Step::Finish { outcome: Outcome::Failed(AuthError::StoreUnavailable), response: set },
    }
}

/// Begins to redeem a registration. Email and code are read from the
/// cookies of the request; if either is missing nothing is begun. A
/// profile is created only if `create_profile` is the text `true`.
pub fn register_new_user(
    request: &Vec<(String, String)>,
    create_profile: Option<String>,
    display_name: Option<String>,
    username: Option<String>,
    bio: Option<String>,
) -> (step: Step)
    ensures
        step@ == register_start_model(
            request.deep_view(),
            create_profile.deep_view(),
            display_name.deep_view(),
            username.deep_view(),
            bio.deep_view(),
        ),
{
    let email = get_cookie(request, REGISTRATION_EMAIL_COOKIE);
    let code = get_cookie(request, REGISTRATION_CODE_COOKIE);
    if email.as_str().is_empty() || code.as_str().is_empty() {
        return fail(AuthError::MissingRegistrationState);
    }
    let create_profile = match create_profile {
        Some(choice) => choice == String::from_str("true"),
        None => false,
    };
    let form = ProfileForm { create_profile, display_name, username, bio };
    ask(State::Beginning { email, form }, Request::BeginTransaction)
}

/// Asks for the transaction to be abandoned.
fn roll_back(error: AuthError) -> (step: Step)
    ensures
        step@ == roll_back_model(error),
{
    ask(State::RollingBack { error }, Request::Rollback)
}

/// Asks for the transaction to be committed.
fn commit(account_id: AccountId, form: ProfileForm) -> (step: Step)
    ensures
        step@ == commit_model(account_id, form@),
{
    ask(State::Committing { account_id, form }, Request::Commit)
}

/// Goes on after the transaction was opened, see [`after_begin_model`].
pub(crate) fn after_begin(email: String, form: ProfileForm, event: Event) -> (step: Step)
    ensures
        step@ == after_begin_model(email@, form@, event@),
{
    match event {
        Event::Completed => ask(State::InsertingAccount { form }, Request::InsertAccount { email }),
        _ => fail(AuthError::RegistrationFailed),
    }
}

/// Goes on after the account was inserted, see
/// [`after_account_inserted_model`].
pub(crate) fn after_account_inserted(form: ProfileForm, event: Event) -> (step: Step)
    ensures
        step@ == after_account_inserted_model(form@, event@),
{
    match event {
        Event::Inserted(id) => {
            let account_id = AccountId { value: id };
            if form.create_profile {
                let request = Request::InsertProfile {
                    username: form.username.clone(),
                    account_id,
                    display_name: form.display_name.clone(),
                    bio: form.bio.clone(),
                };
                ask(State::InsertingProfile { account_id, form }, request)
            } else {
                commit(account_id, form)
            }
        },
        _ => roll_back(AuthError::RegistrationFailed),
    }
}

/// Goes on after the profile was inserted, see
/// [`after_profile_inserted_model`].
pub(crate) fn after_profile_inserted(
    account_id: AccountId,
    form: ProfileForm,
    event: Event,
) -> (step: Step)
    ensures
        step@ == after_profile_inserted_model(account_id, form@, event@),
{
    match event {
        Event::Inserted(id) => ask(
            State::Linking { account_id, form },
            Request::SetDefaultProfile { account_id, profile_id: ProfileId { value: id } },
        ),
        _ => roll_back(AuthError::RegistrationFailed),
    }
}

/// Goes on after the account was pointed at its profile, see
/// [`after_link_model`].
pub(crate) fn after_link(account_id: AccountId, form: ProfileForm, event: Event) -> (step: Step)
    ensures
        step@ == after_link_model(account_id, form@, event@),
{
    match event {
        Event::Updated(rows) => {
            if rows == 0 {
                roll_back(AuthError::AccountLinkFailure)
            } else {
                commit(account_id, form)
            }
        },
        _ => roll_back(AuthError::RegistrationFailed),
    }
}

/// Goes on after the commit, see [`after_commit_model`].
pub(crate) fn after_commit(
    account_id: AccountId,
    form: ProfileForm,
    event: Event,
    fresh: String,
) -> (step: Step)
    ensures
        step@ == after_commit_model(account_id, form@, event@, fresh@),
{
    match event {
        Event::Completed => {
            let mut set = ResponseOptions::new();
            remove_cookie(&mut set, REGISTRATION_CODE_COOKIE);
            remove_cookie(&mut set, REGISTRATION_EMAIL_COOKIE);
            start_session(
                set,
                account_id,
                form.username,
                form.display_name,
                fresh,
                Some(String::from_str("/")),
            )
        },
        _ => fail(AuthError::RegistrationFailed),
    }
}

/// Cancels a registration: the registration code cookie is deleted. The
/// durable store is not touched, and the record of the code is left to
/// expire.
pub fn cancel_registration() -> (response: ResponseOptions)
    ensures
        response@ == cancel_registration_model(),
{
    let mut response = ResponseOptions::new();
    remove_cookie(&mut response, REGISTRATION_CODE_COOKIE);
    response
}

} // verus!
