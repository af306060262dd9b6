use questarch::key::{email_auth_code, new_registration, session};

#[test]
fn challenge_key_has_its_namespace() {
    assert_eq!(email_auth_code("AbCd1234EfGh5678"), "emauthsec:AbCd1234EfGh5678");
}

#[test]
fn session_key_has_its_namespace() {
    assert_eq!(session("0123456789abcdef"), "sess:0123456789abcdef");
}

#[test]
fn registration_key_has_its_namespace() {
    assert_eq!(new_registration("ZZZZZZZZZZZZZZZZ"), "regnew:ZZZZZZZZZZZZZZZZ");
}

#[test]
fn keys_of_an_empty_secret_are_the_bare_prefixes() {
    assert_eq!(email_auth_code(""), "emauthsec:");
    assert_eq!(session(""), "sess:");
    assert_eq!(new_registration(""), "regnew:");
}

#[test]
fn field_names_of_the_records() {
    assert_eq!(questarch::key::EMAIL_FIELD, "email");
    assert_eq!(questarch::key::RESPONSE_FIELD, "response");
    assert_eq!(questarch::key::ACCOUNT_ID_FIELD, "acctid");
    assert_eq!(questarch::key::USERNAME_FIELD, "uname");
    assert_eq!(questarch::key::DISPLAY_NAME_FIELD, "dname");
}
