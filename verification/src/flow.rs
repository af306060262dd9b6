//! The shape shared by every operation: a state that waits for the outcome
//! of a request, and a step that either asks for the next request or ends
//! the operation.

use crate::challenge::{
    after_account_lookup, after_account_lookup_model, after_challenge_read,
    after_challenge_read_model, after_challenge_written, after_challenge_written_model,
    after_mail, after_mail_model, after_probe, after_probe_model,
};
use crate::cookie::{ResponseModel, ResponseOptions};
use crate::effect::{Event, EventModel, Request, RequestModel};
use crate::error::AuthError;
use crate::ident::AccountId;
use crate::registration::{
    after_account_inserted, after_account_inserted_model, after_begin, after_begin_model,
    after_commit, after_commit_model, after_link, after_link_model, after_profile_inserted,
    after_profile_inserted_model, after_reserve, after_reserve_model, after_rollback_model,
};
use crate::session::{after_session_written, after_session_written_model};
use crate::token::{is_token, random_token, CHALLENGE_REGCODE_LEN, MAX_ATTEMPTS};
use vstd::prelude::*;

verus! {

/// What the registration form asked for.
#[derive(Clone, Debug, PartialEq, Eq)]
pub struct ProfileForm {
    pub create_profile: bool,
    pub display_name: Option<String>,
    pub username: Option<String>,
    pub bio: Option<String>,
}

/// What a [`ProfileForm`] holds.
pub struct ProfileFormModel {
    pub create_profile: bool,
    pub display_name: Option<Seq<char>>,
    pub username: Option<Seq<char>>,
    pub bio: Option<Seq<char>>,
}

impl View for ProfileForm {
    type V = ProfileFormModel;

    open spec fn view(&self) -> ProfileFormModel {
        ProfileFormModel {
            create_profile: self.create_profile,
            display_name: self.display_name.deep_view(),
            username: self.username.deep_view(),
            bio: self.bio.deep_view(),
        }
    }
}

impl DeepView for ProfileForm {
    type V = ProfileFormModel;

    open spec fn deep_view(&self) -> ProfileFormModel {
        self@
    }
}

/// An operation that waits for the outcome of the request it last made.
#[derive(Clone, Debug, PartialEq, Eq)]
pub enum State {
    /// The login code is with the mail transport.
    Mailing { email: String, response: String },
    /// The key of `challenge` is being looked for; this is attempt `attempt`.
    Probing { email: String, response: String, challenge: String, attempt: u8 },
    /// The login challenge is being written.
    WritingChallenge { email: String, challenge: String },
    /// The login challenge is being read to check an answer against it.
    ReadingChallenge { email: String, challenge: String, response: String },
    /// The answer was right; the account of `email` is being looked up.
    FindingAccount { email: String, set: ResponseOptions },
    /// The key of `code` is being claimed; this is attempt `attempt`.
    Reserving { email: String, code: String, attempt: u8, set: ResponseOptions },
    /// The session record is being written; `then` is where the browser
    /// goes once it is.
    WritingSession { session_id: String, set: ResponseOptions, then: Option<String> },
    /// The registration transaction is being opened.
    Beginning { email: String, form: ProfileForm },
    /// The account row is being inserted.
    InsertingAccount { form: ProfileForm },
    /// The profile row is being inserted.
    InsertingProfile { account_id: AccountId, form: ProfileForm },
    /// The account is being pointed at its profile.
    Linking { account_id: AccountId, form: ProfileForm },
    /// The registration transaction is being committed.
    Committing { account_id: AccountId, form: ProfileForm },
    /// The registration transaction is being abandoned because of `error`.
    RollingBack { error: AuthError },
}

/// What a [`State`] holds.
pub enum StateModel {
    Mailing { email: Seq<char>, response: Seq<char> },
    Probing { email: Seq<char>, response: Seq<char>, challenge: Seq<char>, attempt: u8 },
    WritingChallenge { email: Seq<char>, challenge: Seq<char> },
    ReadingChallenge { email: Seq<char>, challenge: Seq<char>, response: Seq<char> },
    FindingAccount { email: Seq<char>, set: ResponseModel },
    Reserving { email: Seq<char>, code: Seq<char>, attempt: u8, set: ResponseModel },
    WritingSession { session_id: Seq<char>, set: ResponseModel, then: Option<Seq<char>> },
    Beginning { email: Seq<char>, form: ProfileFormModel },
    InsertingAccount { form: ProfileFormModel },
    InsertingProfile { account_id: AccountId, form: ProfileFormModel },
    Linking { account_id: AccountId, form: ProfileFormModel },
    Committing { account_id: AccountId, form: ProfileFormModel },
    RollingBack { error: AuthError },
}

impl View for State {
    type V = StateModel;

    open spec fn view(&self) -> StateModel {
        match self {
            State::Mailing { email, response } => StateModel::Mailing {
                email: email@,
                response: response@,
            },
            State::Probing { email, response, challenge, attempt } => StateModel::Probing {
                email: email@,
                response: response@,
                challenge: challenge@,
                attempt: *attempt,
            },
            State::WritingChallenge { email, challenge } => StateModel::WritingChallenge {
                email: email@,
                challenge: challenge@,
            },
            State::ReadingChallenge { email, challenge, response } => StateModel::ReadingChallenge {
                email: email@,
                challenge: challenge@,
                response: response@,
            },
            State::FindingAccount { email, set } => StateModel::FindingAccount {
                email: email@,
                set: set@,
            },
            State::Reserving { email, code, attempt, set } => StateModel::Reserving {
                email: email@,
                code: code@,
                attempt: *attempt,
                set: set@,
            },
            State::WritingSession { session_id, set, then } => StateModel::WritingSession {
                session_id: session_id@,
                set: set@,
                then: then.deep_view(),
            },
            State::Beginning { email, form } => StateModel::Beginning {
                email: email@,
                form: form@,
            },
            State::InsertingAccount { form } => StateModel::InsertingAccount { form: form@ },
            State::InsertingProfile { account_id, form } => StateModel::InsertingProfile {
                account_id: *account_id,
                form: form@,
            },
            State::Linking { account_id, form } => StateModel::Linking {
                account_id: *account_id,
                form: form@,
            },
            State::Committing { account_id, form } => StateModel::Committing {
                account_id: *account_id,
                form: form@,
            },
            State::RollingBack { error } => StateModel::RollingBack { error: *error },
        }
    }
}

impl DeepView for State {
    type V = StateModel;

    open spec fn deep_view(&self) -> StateModel {
        self@
    }
}

/// How an operation ended.
#[derive(Clone, Copy, Debug, PartialEq, Eq, Structural)]
pub enum Outcome {
    /// It did what it was asked to; an answer to a challenge was accepted.
    Completed,
    /// An answer to a challenge was not accepted. No reason is given.
    Rejected,
    /// It could not be carried through.
    Failed(AuthError),
}

/// What an operation wants next.
#[derive(Clone, Debug, PartialEq, Eq)]
pub enum Step {
    /// Carry out `request` and come back with its outcome. `cleanup`, if
    /// any, is a key of the ephemeral store to delete in the background;
    /// whether that works is of no concern to the operation.
    Perform { state: State, request: Request, cleanup: Option<String> },
    /// The operation is over. `response` holds what to set on the response,
    /// whatever the outcome.
    Finish { outcome: Outcome, response: ResponseOptions },
}

/// What a [`Step`] holds.
pub enum StepModel {
    Perform { state: StateModel, request: RequestModel, cleanup: Option<Seq<char>> },
    Finish { outcome: Outcome, response: ResponseModel },
}

impl View for Step {
    type V = StepModel;

    open spec fn view(&self) -> StepModel {
        match self {
            Step::Perform { state, request, cleanup } => StepModel::Perform {
                state: state@,
                request: request@,
                cleanup: cleanup.deep_view(),
            },
            Step::Finish { outcome, response } => StepModel::Finish {
                outcome: *outcome,
                response: response@,
            },
        }
    }
}

impl DeepView for Step {
    type V = StepModel;

    open spec fn deep_view(&self) -> StepModel {
        self@
    }
}

impl StepModel {
    /// The operation ends in `error` and sets nothing.
    pub open spec fn fail(error: AuthError) -> StepModel {
        StepModel::Finish { outcome: Outcome::Failed(error), response: ResponseModel::empty() }
    }

    /// The operation goes on with `request` and has nothing to clean up.
    pub open spec fn ask(state: StateModel, request: RequestModel) -> StepModel {
        StepModel::Perform { state, request, cleanup: None }
    }
}

/// Ends the operation in `error`, setting nothing on the response.
pub fn fail(error: AuthError) -> (step: Step)
    ensures
        step@ == StepModel::fail(error),
{
    Step::Finish { outcome: Outcome::Failed(error), response: ResponseOptions::new() }
}

/// Goes on with `request`, with nothing to clean up.
pub fn ask(state: State, request: Request) -> (step: Step)
    ensures
        step@ == StepModel::ask(state@, request@),
{
    Step::Perform { state, request, cleanup: None }
}

/// What follows when `event` is the outcome of the request that `state`
/// waits for. `fresh` is the new secret for the steps that need one; the
/// others do not look at it. An outcome that does not answer the request
/// counts as its failure.
pub open spec fn next_model(state: StateModel, event: EventModel, fresh: Seq<char>) -> StepModel {
    match state {
        StateModel::Mailing { email, response } => after_mail_model(email, response, event, fresh),
        StateModel::Probing { email, response, challenge, attempt } => after_probe_model(
            email,
            response,
            challenge,
            attempt,
            event,
            fresh,
        ),
        StateModel::WritingChallenge { email, challenge } => after_challenge_written_model(
            email,
            challenge,
            event,
        ),
        StateModel::ReadingChallenge { email, challenge, response } => after_challenge_read_model(
            email,
            challenge,
            response,
            event,
        ),
        StateModel::FindingAccount { email, set } => after_account_lookup_model(
            email,
            set,
            event,
            fresh,
        ),
        StateModel::Reserving { email, code, attempt, set } => after_reserve_model(
            email,
            code,
            attempt,
            set,
            event,
            fresh,
        ),
        StateModel::WritingSession { session_id, set, then } => after_session_written_model(
            session_id,
            set,
            then,
            event,
        ),
        StateModel::Beginning { email, form } => after_begin_model(email, form, event),
        StateModel::InsertingAccount { form } => after_account_inserted_model(form, event),
        StateModel::InsertingProfile { account_id, form } => after_profile_inserted_model(
            account_id,
            form,
            event,
        ),
        StateModel::Linking { account_id, form } => after_link_model(account_id, form, event),
        StateModel::Committing { account_id, form } => after_commit_model(
            account_id,
            form,
            event,
            fresh,
        ),
        StateModel::RollingBack { error } => after_rollback_model(error),
    }
}

/// Whether the step from `state` on `event` puts a new secret to use.
pub open spec fn draws_token(state: StateModel, event: EventModel) -> bool {
    match state {
        StateModel::Mailing { .. } => event is Completed,
        StateModel::Probing { attempt, .. } => event == EventModel::Exists(true) && attempt
            < MAX_ATTEMPTS,
        StateModel::FindingAccount { .. } => event is Account,
        StateModel::Reserving { attempt, .. } => event == EventModel::Stored(false) && attempt
            < MAX_ATTEMPTS,
        StateModel::Committing { .. } => event is Completed,
        _ => false,
    }
}

/// A step that puts no new secret to use is the same whatever secret it is
/// offered.
pub proof fn lemma_unused_token(
    state: StateModel,
    event: EventModel,
    fresh: Seq<char>,
    other: Seq<char>,
)
    requires
        !draws_token(state, event),
    ensures
        next_model(state, event, fresh) == next_model(state, event, other),
{
}

/// Takes the operation one step on, with `fresh` as the new secret for the
/// steps that need one.
pub fn next_with(state: State, event: Event, fresh: String) -> (step: Step)
    ensures
        step@ == next_model(state@, event@, fresh@),
{
    match state {
        State::Mailing { email, response } => after_mail(email, response, event, fresh),
        State::Probing { email, response, challenge, attempt } => after_probe(
            email,
            response,
            challenge,
            attempt,
            event,
            fresh,
        ),
        State::WritingChallenge { email, challenge } => after_challenge_written(
            email,
            challenge,
            event,
        ),
        State::ReadingChallenge { email, challenge, response } => after_challenge_read(
            email,
            challenge,
            response,
            event,
        ),
        State::FindingAccount { email, set } => after_account_lookup(email, set, event, fresh),
        State::Reserving { email, code, attempt, set } => after_reserve(
            email,
            code,
            attempt,
            set,
            event,
            fresh,
        ),
        State::WritingSession { session_id, set, then } => after_session_written(
            session_id,
            set,
            then,
            &event,
        ),
        State::Beginning { email, form } => after_begin(email, form, event),
        State::InsertingAccount { form } => after_account_inserted(form, event),
        State::InsertingProfile { account_id, form } => after_profile_inserted(
            account_id,
            form,
            event,
        ),
        State::Linking { account_id, form } => after_link(account_id, form, event),
        State::Committing { account_id, form } => after_commit(account_id, form, event, fresh),
        State::RollingBack { error } => fail(error),
    }
}

/// Whether the step from `state` on `event` puts a new secret to use.
pub fn needs_token(state: &State, event: &Event) -> (needed: bool)
    ensures
        needed == draws_token(state@, event@),
{
    match state {
        State::Mailing { .. } => match event {
            Event::Completed => true,
            _ => false,
        },
        State::Probing { attempt, .. } => match event {
            Event::Exists(found) => *found && *attempt < MAX_ATTEMPTS,
            _ => false,
        },
        State::FindingAccount { .. } => match event {
            Event::Account(_) => true,
            _ => false,
        },
        State::Reserving { attempt, .. } => match event {
            Event::Stored(stored) => !*stored && *attempt < MAX_ATTEMPTS,
            _ => false,
        },
        State::Committing { .. } => match event {
            Event::Completed => true,
            _ => false,
        },
        _ => false,
    }
}

/// Takes the operation one step on. Where the step needs a new secret, one
/// is drawn at random, and only then.
pub fn next(state: State, event: Event) -> (step: Step)
    ensures
        !draws_token(state@, event@) ==> step@ == next_model(state@, event@, Seq::empty()),
        draws_token(state@, event@) ==> exists|fresh: Seq<char>|
            is_token(fresh, CHALLENGE_REGCODE_LEN as nat) && step@ == #[trigger] next_model(
                state@,
                event@,
                fresh,
            ),
{
    if needs_token(&state, &event) {
        let fresh = random_token(CHALLENGE_REGCODE_LEN);
        next_with(state, event, fresh)
    } else {
        next_with(state, event, String::new())
    }
}

} // verus!
