//! The failures that an operation can end with.

use vstd::prelude::*;
use vstd::string::*;

verus! {

/// Why an operation failed. A wrong or expired login code is no failure:
/// the answer to a challenge then ends as rejected.
#[derive(Clone, Copy, Debug, PartialEq, Eq, Structural)]
pub enum AuthError {
    /// The email address is not one that mail can be sent to.
    InvalidInput,
    /// The mail with the login code could not be handed to the transport.
    MailDeliveryFailed,
    /// No unused key was found within the allowed number of attempts.
    EntropyExhausted,
    /// One of the two stores failed to carry out a request.
    StoreUnavailable,
    /// The session token is malformed, or its record names no valid account.
    CorruptSession,
    /// The session record is gone or holds no account.
    SessionExpiredOrCorrupt,
    /// The registration transaction could not be carried through.
    RegistrationFailed,
    /// The new account could not be pointed at its new profile.
    AccountLinkFailure,
    /// The registration cookies are missing from the request.
    MissingRegistrationState,
    /// The session record could not be written.
    SessionCreateFailed,
}

impl AuthError {
    /// What the user is told. A failure of a store is told in general
    /// words: which store it was, and why, is not for the user.
    pub open spec fn message_text(self) -> Seq<char> {
        match self {
            AuthError::InvalidInput => "Bad email"@,
            AuthError::MailDeliveryFailed => "Couldn't send mail"@,
            AuthError::EntropyExhausted => "Couldn't generate a unique registration code. There may be a serious problem with entropy sources or keyspace saturation."@,
            AuthError::StoreUnavailable => "Couldn't complete the request. Try again."@,
            AuthError::CorruptSession => "Your session was corrupted. Try logging in again."@,
            AuthError::SessionExpiredOrCorrupt => "Your session expired or was corrupted. Try logging in again."@,
            AuthError::RegistrationFailed => "Failed to create the account"@,
            AuthError::AccountLinkFailure => "Failed to find account to update"@,
            AuthError::MissingRegistrationState => "Params are missing or invalid"@,
            AuthError::SessionCreateFailed => "Failed to create session"@,
        }
    }

    /// The message for the user.
    pub fn message(&self) -> (text: String)
        ensures
            text@ == self.message_text(),
    {
        let text = match self {
            AuthError::InvalidInput => "Bad email",
            AuthError::MailDeliveryFailed => "Couldn't send mail",
            AuthError::EntropyExhausted => "Couldn't generate a unique registration code. There may be a serious problem with entropy sources or keyspace saturation.",
            AuthError::StoreUnavailable => "Couldn't complete the request. Try again.",
            AuthError::CorruptSession => "Your session was corrupted. Try logging in again.",
            AuthError::SessionExpiredOrCorrupt => "Your session expired or was corrupted. Try logging in again.",
            AuthError::RegistrationFailed => "Failed to create the account",
            AuthError::AccountLinkFailure => "Failed to find account to update",
            AuthError::MissingRegistrationState => "Params are missing or invalid",
            AuthError::SessionCreateFailed => "Failed to create session",
        };
        String::from_str(text)
    }
}

} // verus!
