//! Names of the records in the ephemeral store, and of their fields.

use vstd::prelude::*;
use vstd::string::*;

verus! {

/// Field of a login challenge that holds the email.
pub const EMAIL_FIELD: &'static str = "email";

/// Field of a login challenge that holds the response secret.
pub const RESPONSE_FIELD: &'static str = "response";

/// Field of a session that holds the account's identity as text.
pub const ACCOUNT_ID_FIELD: &'static str = "acctid";

/// Field of a session that holds the username.
pub const USERNAME_FIELD: &'static str = "uname";

/// Field of a session that holds the display name.
pub const DISPLAY_NAME_FIELD: &'static str = "dname";

/// Key of the login challenge that belongs to `secret`.
pub open spec fn email_auth_code_key(secret: Seq<char>) -> Seq<char> {
    "emauthsec:"@ + secret
}

/// Key of the session that belongs to `session_id`.
pub open spec fn session_key(session_id: Seq<char>) -> Seq<char> {
    "sess:"@ + session_id
}

/// Key of the registration code `secret`.
pub open spec fn new_registration_key(secret: Seq<char>) -> Seq<char> {
    "regnew:"@ + secret
}

/// The key under which the login challenge of `secret` is kept.
pub fn email_auth_code(secret: &str) -> (key: String)
    ensures
        key@ == email_auth_code_key(secret@),
{
    let mut key = String::from_str("emauthsec:");
    key.append(secret);
    key
}

/// The key under which the session `session_id` is kept.
pub fn session(session_id: &str) -> (key: String)
    ensures
        key@ == session_key(session_id@),
{
    let mut key = String::from_str("sess:");
    key.append(session_id);
    key
}

/// The key under which the registration code `secret` is kept.
pub fn new_registration(secret: &str) -> (key: String)
    ensures
        key@ == new_registration_key(secret@),
{
    let mut key = String::from_str("regnew:");
    key.append(secret);
    key
}

/// Two secrets share a key only if they are the same secret.
pub proof fn lemma_key_determines_secret(a: Seq<char>, b: Seq<char>)
    ensures
        email_auth_code_key(a) == email_auth_code_key(b) ==> a == b,
        session_key(a) == session_key(b) ==> a == b,
        new_registration_key(a) == new_registration_key(b) ==> a == b,
{
    lemma_same_prefix("emauthsec:"@, a, b);
    lemma_same_prefix("sess:"@, a, b);
    lemma_same_prefix("regnew:"@, a, b);
}

/// The three kinds of record never meet under one key.
pub proof fn lemma_namespaces_apart(a: Seq<char>, b: Seq<char>)
    ensures
        email_auth_code_key(a) != session_key(b),
        email_auth_code_key(a) != new_registration_key(b),
        session_key(a) != new_registration_key(b),
{
    reveal_strlit("emauthsec:");
    reveal_strlit("sess:");
    reveal_strlit("regnew:");
    assert(email_auth_code_key(a)[0] == 'e');
    assert(session_key(a)[0] == 's');
    assert(session_key(b)[0] == 's');
    assert(new_registration_key(b)[0] == 'r');
}

/// What follows a common prefix is the same if the whole is.
proof fn lemma_same_prefix(p: Seq<char>, a: Seq<char>, b: Seq<char>)
    ensures
        p + a == p + b ==> a == b,
{
    if p + a == p + b {
        assert(a =~= (p + a).subrange(p.len() as int, (p + a).len() as int));
        assert(b =~= (p + b).subrange(p.len() as int, (p + b).len() as int));
    }
}

} // verus!
