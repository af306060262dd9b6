//! Sessions: writing the record of a new one, and telling from the record
//! that was read who a session token belongs to.

use crate::cookie::{
    cookie_lookup, find_cookie, set_cookie, site_cookie, site_cookie_model, ResponseModel,
    ResponseOptions, SESSION_COOKIE, SESSION_TTL_SEC,
};
use crate::effect::{Event, EventModel, Request, RequestModel};
use crate::error::AuthError;
use crate::flow::{ask, Outcome, State, StateModel, Step, StepModel};
use crate::ident::{id_from_text, id_text, id_to_text, parsed_id, AccountId};
use crate::key::{session, session_key};
use crate::token::{is_token, random_token, well_formed_token, SESSION_ID_LEN};
use vstd::prelude::*;
use vstd::string::*;

verus! {

/// Who a session belongs to.
#[derive(Clone, Debug, PartialEq, Eq)]
pub struct SessionInfo {
    pub account_id: AccountId,
    pub session_id: String,
    pub username: String,
    pub display_name: String,
}

/// What a [`SessionInfo`] holds.
pub struct SessionInfoModel {
    pub account_id: AccountId,
    pub session_id: Seq<char>,
    pub username: Seq<char>,
    pub display_name: Seq<char>,
}

impl View for SessionInfo {
    type V = SessionInfoModel;

    open spec fn view(&self) -> SessionInfoModel {
        SessionInfoModel {
            account_id: self.account_id,
            session_id: self.session_id@,
            username: self.username@,
            display_name: self.display_name@,
        }
    }
}

impl DeepView for SessionInfo {
    type V = SessionInfoModel;

    open spec fn deep_view(&self) -> SessionInfoModel {
        self@
    }
}

/// A session token has the right length and alphabet.
pub open spec fn is_valid_session_id(session_id: Seq<char>) -> bool {
    is_token(session_id, SESSION_ID_LEN as nat)
}

/// Whether a session token has the right length and alphabet.
pub fn valid_session_id(session_id: &str) -> (valid: bool)
    ensures
        valid == is_valid_session_id(session_id@),
{
    well_formed_token(session_id, SESSION_ID_LEN)
}

/// The text, or the empty text where there is none.
pub open spec fn text_or_empty(text: Option<Seq<char>>) -> Seq<char> {
    match text {
        Some(text) => text,
        None => Seq::empty(),
    }
}

/// The request that writes the session `session_id` of an account, and the
/// state that waits for it. `then` is where the browser goes once the
/// session stands.
pub open spec fn start_session_model(
    set: ResponseModel,
    account_id: AccountId,
    username: Option<Seq<char>>,
    display_name: Option<Seq<char>>,
    session_id: Seq<char>,
    then: Option<Seq<char>>,
) -> StepModel {
    StepModel::ask(
        StateModel::WritingSession { session_id, set, then },
        RequestModel::PutSession {
            key: session_key(session_id),
            account_id: id_text(account_id.value),
            username: text_or_empty(username),
            display_name: text_or_empty(display_name),
            ttl_secs: SESSION_TTL_SEC,
        },
    )
}

/// What follows the attempt to write a session record: the session cookie
/// on success, and failure on anything else, with what was set before.
pub open spec fn after_session_written_model(
    session_id: Seq<char>,
    set: ResponseModel,
    then: Option<Seq<char>>,
    event: EventModel,
) -> StepModel {
    if event is Completed {
        let with_cookie = set.with_cookie(
            site_cookie_model(SESSION_COOKIE@, session_id, SESSION_TTL_SEC, true),
        );
        StepModel::Finish {
            outcome: Outcome::Completed,
            response: match then {
                Some(path) => with_cookie.with_redirect(path),
                None => with_cookie,
            },
        }
    } else {
        StepModel::Finish { outcome: Outcome::Failed(AuthError::SessionCreateFailed), response: set }
    }
}

/// The text, or the empty text where there is none.
fn or_empty(text: Option<String>) -> (out: String)
    ensures
        out@ == text_or_empty(text.deep_view()),
{
    match text {
        Some(text) => text,
        None => String::new(),
    }
}

/// Starts the session `session_id` for an account.
pub(crate) fn start_session(
    set: ResponseOptions,
    account_id: AccountId,
    username: Option<String>,
    display_name: Option<String>,
    session_id: String,
    then: Option<String>,
) -> (step: Step)
    ensures
        step@ == start_session_model(
            set@,
            account_id,
            username.deep_view(),
            display_name.deep_view(),
            session_id@,
            then.deep_view(),
        ),
{
    let key = session(session_id.as_str());
    let request = Request::PutSession {
        key,
        account_id: id_to_text(account_id.value),
        username: or_empty(username),
        display_name: or_empty(display_name),
        ttl_secs: SESSION_TTL_SEC,
    };
    ask(State::WritingSession { session_id, set, then }, request)
}

/// Starts a session under the given token: asks for the record to be
/// written, with its three fields and its expiry, in one transaction. The
/// cookies in `response_options` are kept and the session cookie joins them
/// once the record is written.
pub fn create_session_with(
    response_options: ResponseOptions,
    account_id: AccountId,
    username: Option<String>,
    display_name: Option<String>,
    session_id: String,
) -> (step: Step)
    ensures
        step@ == start_session_model(
            response_options@,
            account_id,
            username.deep_view(),
            display_name.deep_view(),
            session_id@,
            None,
        ),
{
    start_session(response_options, account_id, username, display_name, session_id, None)
}

/// Starts a session under a token drawn at random.
pub fn create_session(
    response_options: ResponseOptions,
    account_id: AccountId,
    username: Option<String>,
    display_name: Option<String>,
) -> (step: Step)
    ensures
        exists|session_id: Seq<char>|
            is_valid_session_id(session_id) && step@ == #[trigger] start_session_model(
                response_options@,
                account_id,
                username.deep_view(),
                display_name.deep_view(),
                session_id,
                None,
            ),
{
    let session_id = random_token(SESSION_ID_LEN);
    create_session_with(response_options, account_id, username, display_name, session_id)
}

/// Ends the writing of a session record.
pub(crate) fn after_session_written(
    session_id: String,
    set: ResponseOptions,
    then: Option<String>,
    event: &Event,
) -> (step: Step)
    ensures
        step@ == after_session_written_model(session_id@, set@, then.deep_view(), event@),
{
    let mut set = set;
    match event {
        Event::Completed => {
            set_cookie(&mut set, site_cookie(SESSION_COOKIE, session_id, SESSION_TTL_SEC, true));
            match then {
                Some(path) => {
                    set.redirect(path.as_str());
                },
                None => {},
            }
            Step::Finish { outcome: Outcome::Completed, response: set }
        },
        _ => Step::Finish { outcome: Outcome::Failed(AuthError::SessionCreateFailed), response: set },
    }
}

/// What to do about the session cookie of a request.
#[derive(Clone, Debug, PartialEq, Eq)]
pub enum SessionLookup {
    /// The request has no session cookie: the visitor is anonymous.
    Anonymous,
    /// The token is malformed. Nothing is to be read.
    Refused(AuthError),
    /// Carry out `request` and hand its outcome to [`get_session_for`].
    Read { session_id: String, request: Request },
}

/// What a [`SessionLookup`] holds.
pub enum SessionLookupModel {
    Anonymous,
    Refused(AuthError),
    Read { session_id: Seq<char>, request: RequestModel },
}

impl View for SessionLookup {
    type V = SessionLookupModel;

    open spec fn view(&self) -> SessionLookupModel {
        match self {
            SessionLookup::Anonymous => SessionLookupModel::Anonymous,
            SessionLookup::Refused(error) => SessionLookupModel::Refused(*error),
            SessionLookup::Read { session_id, request } => SessionLookupModel::Read {
                session_id: session_id@,
                request: request@,
            },
        }
    }
}

/// What the session cookie among `jar` calls for.
pub open spec fn get_session_model(jar: Seq<(Seq<char>, Seq<char>)>) -> SessionLookupModel {
    match cookie_lookup(jar, SESSION_COOKIE@) {
        None => SessionLookupModel::Anonymous,
        Some(session_id) => if is_valid_session_id(session_id) {
            SessionLookupModel::Read {
                session_id,
                request: RequestModel::GetSession { key: session_key(session_id) },
            }
        } else {
            SessionLookupModel::Refused(AuthError::CorruptSession)
        },
    }
}

/// Looks at the session cookie of a request. Without one the visitor is
/// anonymous. A malformed token is refused at once; for a well-formed one
/// the record is to be read.
pub fn get_session(request: &Vec<(String, String)>) -> (lookup: SessionLookup)
    ensures
        lookup@ == get_session_model(request.deep_view()),
{
    match find_cookie(request, SESSION_COOKIE) {
        None => SessionLookup::Anonymous,
        Some(session_id) => {
            if valid_session_id(session_id.as_str()) {
                let key = session(session_id.as_str());
                SessionLookup::Read { session_id, request: Request::GetSession { key } }
            } else {
                SessionLookup::Refused(AuthError::CorruptSession)
            }
        },
    }
}

/// Who a session belongs to, or why it is none, and the key of a record to
/// delete in the background where the record turned out to be broken.
#[derive(Debug, PartialEq, Eq)]
pub struct Resolved {
    pub result: Result<SessionInfo, AuthError>,
    pub cleanup: Option<String>,
}

/// What a [`Resolved`] holds.
pub struct ResolvedModel {
    pub result: Result<SessionInfoModel, AuthError>,
    pub cleanup: Option<Seq<char>>,
}

impl View for Resolved {
    type V = ResolvedModel;

    open spec fn view(&self) -> ResolvedModel {
        ResolvedModel {
            result: match self.result {
                Ok(info) => Ok(info@),
                Err(error) => Err(error),
            },
            cleanup: self.cleanup.deep_view(),
        }
    }
}

/// What the record read for `session_id` says.
pub open spec fn get_session_for_model(session_id: Seq<char>, event: EventModel) -> ResolvedModel {
    if !is_valid_session_id(session_id) {
        ResolvedModel { result: Err(AuthError::CorruptSession), cleanup: None }
    } else {
        match event {
            EventModel::Session(record) => {
                if record.account_id.len() == 0 {
                    ResolvedModel {
                        result: Err(AuthError::SessionExpiredOrCorrupt),
                        cleanup: if record.username.len() > 0 || record.display_name.len() > 0 {
                            Some(session_key(session_id))
                        } else {
                            None
                        },
                    }
                } else {
                    match parsed_id(record.account_id) {
                        Some(value) => ResolvedModel {
                            result: Ok(
                                SessionInfoModel {
                                    account_id: AccountId { value },
                                    session_id,
                                    username: record.username,
                                    display_name: record.display_name,
                                },
                            ),
                            cleanup: None,
                        },
                        None => ResolvedModel {
                            result: Err(AuthError::CorruptSession),
                            cleanup: Some(session_key(session_id)),
                        },
                    }
                }
            },
            _ => ResolvedModel { result: Err(AuthError::StoreUnavailable), cleanup: None },
        }
    }
}

/// Tells from the outcome of reading a session record who the session
/// belongs to.
///
/// A malformed token is corrupt whatever was read. A record without an
/// account has expired or is corrupt; if it still holds a name it is to be
/// deleted. A record whose account is no identity is corrupt and to be
/// deleted. Any outcome but a record means that the store failed.
pub fn get_session_for(session_id: &str, event: Event) -> (resolved: Resolved)
    ensures
        resolved@ == get_session_for_model(session_id@, event@),
{
    if !valid_session_id(session_id) {
        return Resolved { result: Err(AuthError::CorruptSession), cleanup: None };
    }
    match event {
        Event::Session(record) => {
            if record.account_id.as_str().is_empty() {
                let cleanup = if !record.username.as_str().is_empty()
                    || !record.display_name.as_str().is_empty() {
                    Some(session(session_id))
                } else {
                    None
                };
                Resolved { result: Err(AuthError::SessionExpiredOrCorrupt), cleanup }
            } else {
                match id_from_text(record.account_id.as_str()) {
                    Some(value) => Resolved {
                        result: Ok(
                            SessionInfo {
                                account_id: AccountId { value },
                                session_id: String::from_str(session_id),
                                username: record.username,
                                display_name: record.display_name,
                            },
                        ),
                        cleanup: None,
                    },
                    None => Resolved {
                        result: Err(AuthError::CorruptSession),
                        cleanup: Some(session(session_id)),
                    },
                }
            }
        },
        _ => Resolved { result: Err(AuthError::StoreUnavailable), cleanup: None },
    }
}

} // verus!
