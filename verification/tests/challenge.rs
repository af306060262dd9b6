use questarch::challenge::{
    answer_email_login_challenge, get_email_login_challenge, get_email_login_challenge_with,
};
use questarch::cookie::{Cookie, ResponseOptions};
use questarch::effect::{AccountRecord, Event, Request, StoredChallenge};
use questarch::error::AuthError;
use questarch::flow::{needs_token, next, next_with, Outcome, State, Step};
use questarch::ident::AccountId;
use questarch::token::well_formed_token;
use std::collections::HashMap;

const EMAIL: &str = "user@example.com";
const RESPONSE: &str = "AbCd1234";
const TOKEN: &str = "0123456789abcdef";
const KEY: &str = "emauthsec:0123456789abcdef";

/// An ephemeral store that does what the requests say and counts them.
#[derive(Default)]
struct Ephemeral {
    challenges: HashMap<String, (String, String, u64)>,
    codes: HashMap<String, (String, u64)>,
    every_key_taken: bool,
    requests: usize,
}

impl Ephemeral {
    fn perform(&mut self, request: &Request) -> Event {
        self.requests += 1;
        match request {
            Request::KeyExists { key } => {
                Event::Exists(self.every_key_taken || self.challenges.contains_key(key))
            }
            Request::PutChallenge { key, email, response, ttl_secs } => {
                self.challenges.insert(key.clone(), (email.clone(), response.clone(), *ttl_secs));
                Event::Completed
            }
            Request::GetChallenge { key } => {
                Event::Challenge(self.challenges.get(key).map(|(email, response, _)| {
                    StoredChallenge { email: Some(email.clone()), response: Some(response.clone()) }
                }))
            }
            Request::PutIfAbsent { key, value, ttl_secs } => {
                if self.every_key_taken || self.codes.contains_key(key) {
                    Event::Stored(false)
                } else {
                    self.codes.insert(key.clone(), (value.clone(), *ttl_secs));
                    Event::Stored(true)
                }
            }
            _ => Event::Failed,
        }
    }

    fn delete(&mut self, cleanup: &Option<String>) {
        if let Some(key) = cleanup {
            self.challenges.remove(key);
        }
    }
}

fn jar(pairs: &[(&str, &str)]) -> Vec<(String, String)> {
    pairs.iter().map(|(name, value)| (name.to_string(), value.to_string())).collect()
}

fn login_jar(email: &str, token: &str) -> Vec<(String, String)> {
    jar(&[("login-challenge-token", token), ("login-email", email)])
}

fn site(name: &str, value: &str, max_age_secs: u64, http_only: bool) -> Cookie {
    Cookie {
        name: name.to_string(),
        value: value.to_string(),
        path: "/".to_string(),
        max_age_secs,
        same_site_lax: true,
        http_only,
        removal: false,
    }
}

fn removal(name: &str) -> Cookie {
    Cookie {
        name: name.to_string(),
        value: String::new(),
        path: "/".to_string(),
        max_age_secs: 0,
        same_site_lax: false,
        http_only: false,
        removal: true,
    }
}

fn login_cookies_removed() -> ResponseOptions {
    ResponseOptions {
        cookies: vec![removal("login-challenge-token"), removal("login-email")],
        redirect: None,
    }
}

fn rejected() -> Step {
    Step::Finish { outcome: Outcome::Rejected, response: ResponseOptions::new() }
}

fn failed(error: AuthError) -> Step {
    Step::Finish { outcome: Outcome::Failed(error), response: ResponseOptions::new() }
}

/// Issues a challenge against `store` with the given secrets and returns
/// how it ended.
fn issue(store: &mut Ephemeral, email: &str, response: &str, token: &str) -> Step {
    let mut step = get_email_login_challenge_with(email.to_string(), response.to_string());
    loop {
        match step {
            Step::Perform { state, request: Request::SendMail { .. }, .. } => {
                step = next_with(state, Event::Completed, token.to_string());
            }
            Step::Perform { state, request, .. } => {
                let event = store.perform(&request);
                step = next_with(state, event, token.to_string());
            }
            finish => return finish,
        }
    }
}

/// Answers a challenge against `store` up to the first request that is not
/// for the ephemeral store, carrying out cleanups on the way.
fn answer(store: &mut Ephemeral, cookies: &[(String, String)], response: &str) -> Step {
    let mut step = answer_email_login_challenge(&cookies.to_vec(), response.to_string());
    loop {
        match step {
            Step::Perform { state, request: request @ Request::GetChallenge { .. }, cleanup } => {
                store.delete(&cleanup);
                let event = store.perform(&request);
                step = next_with(state, event, String::new());
            }
            Step::Perform { ref cleanup, .. } => {
                store.delete(cleanup);
                return step;
            }
            finish => return finish,
        }
    }
}

#[test]
fn issuing_for_a_bad_email_fails_before_anything_is_asked() {
    for email in ["", "nobody", "user@", "@example.com"] {
        assert_eq!(
            get_email_login_challenge_with(email.to_string(), RESPONSE.to_string()),
            failed(AuthError::InvalidInput)
        );
        assert_eq!(get_email_login_challenge(email.to_string()), failed(AuthError::InvalidInput));
    }
}

#[test]
fn issuing_mails_the_code_first() {
    let step = get_email_login_challenge_with(EMAIL.to_string(), RESPONSE.to_string());
    let Step::Perform { state, request: Request::SendMail { mail }, cleanup: None } = step else {
        panic!("no mail")
    };
    assert_eq!(mail.to, EMAIL);
    assert_eq!(mail.code, RESPONSE);
    assert_eq!(mail.expires_in_min, 20);
    assert!(mail.plain_text.contains(RESPONSE));
    assert_eq!(
        state,
        State::Mailing { email: EMAIL.to_string(), response: RESPONSE.to_string() }
    );
}

#[test]
fn issuing_draws_a_response_of_eight_letters_and_digits() {
    let step = get_email_login_challenge(EMAIL.to_string());
    let Step::Perform { state: State::Mailing { email, response }, request, .. } = step else {
        panic!("no mail")
    };
    assert_eq!(email, EMAIL);
    assert!(well_formed_token(&response, 8));
    let Request::SendMail { mail } = request else { panic!("no mail") };
    assert_eq!(mail.code, response);
}

#[test]
fn failed_mail_fails_the_issuing_and_stores_nothing() {
    for event in [Event::Failed, Event::Exists(false), Event::Stored(true)] {
        let state = State::Mailing { email: EMAIL.to_string(), response: RESPONSE.to_string() };
        assert!(!needs_token(&state, &event));
        assert_eq!(next(state, event), failed(AuthError::MailDeliveryFailed));
    }
}

#[test]
fn sent_mail_leads_to_the_first_probe() {
    let state = State::Mailing { email: EMAIL.to_string(), response: RESPONSE.to_string() };
    assert!(needs_token(&state, &Event::Completed));
    let step = next_with(state, Event::Completed, TOKEN.to_string());
    assert_eq!(
        step,
        Step::Perform {
            state: State::Probing {
                email: EMAIL.to_string(),
                response: RESPONSE.to_string(),
                challenge: TOKEN.to_string(),
                attempt: 1,
            },
            request: Request::KeyExists { key: KEY.to_string() },
            cleanup: None,
        }
    );
}

#[test]
fn sent_mail_draws_a_challenge_of_sixteen_letters_and_digits() {
    let state = State::Mailing { email: EMAIL.to_string(), response: RESPONSE.to_string() };
    let Step::Perform { state: State::Probing { challenge, attempt, .. }, request, .. } =
        next(state, Event::Completed)
    else {
        panic!("no probe")
    };
    assert!(well_formed_token(&challenge, 16));
    assert_eq!(attempt, 1);
    assert_eq!(request, Request::KeyExists { key: format!("emauthsec:{challenge}") });
}

#[test]
fn free_key_takes_the_challenge() {
    let state = State::Probing {
        email: EMAIL.to_string(),
        response: RESPONSE.to_string(),
        challenge: TOKEN.to_string(),
        attempt: 3,
    };
    assert!(!needs_token(&state, &Event::Exists(false)));
    let step = next(state, Event::Exists(false));
    assert_eq!(
        step,
        Step::Perform {
            state: State::WritingChallenge { email: EMAIL.to_string(), challenge: TOKEN.to_string() },
            request: Request::PutChallenge {
                key: KEY.to_string(),
                email: EMAIL.to_string(),
                response: RESPONSE.to_string(),
                ttl_secs: 1200,
            },
            cleanup: None,
        }
    );
}

#[test]
fn taken_key_leads_to_another_token() {
    let state = State::Probing {
        email: EMAIL.to_string(),
        response: RESPONSE.to_string(),
        challenge: TOKEN.to_string(),
        attempt: 9,
    };
    assert!(needs_token(&state, &Event::Exists(true)));
    let step = next_with(state, Event::Exists(true), "ZZZZZZZZZZZZZZZZ".to_string());
    assert_eq!(
        step,
        Step::Perform {
            state: State::Probing {
                email: EMAIL.to_string(),
                response: RESPONSE.to_string(),
                challenge: "ZZZZZZZZZZZZZZZZ".to_string(),
                attempt: 10,
            },
            request: Request::KeyExists { key: "emauthsec:ZZZZZZZZZZZZZZZZ".to_string() },
            cleanup: None,
        }
    );
}

#[test]
fn tenth_taken_key_exhausts_the_entropy() {
    let state = State::Probing {
        email: EMAIL.to_string(),
        response: RESPONSE.to_string(),
        challenge: TOKEN.to_string(),
        attempt: 10,
    };
    assert!(!needs_token(&state, &Event::Exists(true)));
    assert_eq!(next(state, Event::Exists(true)), failed(AuthError::EntropyExhausted));
}

#[test]
fn issuing_gives_up_after_exactly_ten_probes() {
    let mut store = Ephemeral { every_key_taken: true, ..Ephemeral::default() };
    let mut step = get_email_login_challenge(EMAIL.to_string());
    let mut probes = 0;
    let end = loop {
        match step {
            Step::Perform { state, request: Request::SendMail { .. }, .. } => {
                step = next(state, Event::Completed);
            }
            Step::Perform { state, request, .. } => {
                assert!(matches!(request, Request::KeyExists { .. }));
                probes += 1;
                step = next(state, store.perform(&request));
            }
            finish => break finish,
        }
    };
    assert_eq!(end, failed(AuthError::EntropyExhausted));
    assert_eq!(probes, 10);
    assert_eq!(store.requests, 10);
    assert!(store.challenges.is_empty());
}

#[test]
fn failed_probe_is_a_store_failure() {
    for event in [Event::Failed, Event::Completed, Event::Stored(false)] {
        let state = State::Probing {
            email: EMAIL.to_string(),
            response: RESPONSE.to_string(),
            challenge: TOKEN.to_string(),
            attempt: 1,
        };
        assert_eq!(next(state, event), failed(AuthError::StoreUnavailable));
    }
}

#[test]
fn written_challenge_sets_both_login_cookies() {
    let state = State::WritingChallenge { email: EMAIL.to_string(), challenge: TOKEN.to_string() };
    assert_eq!(
        next(state, Event::Completed),
        Step::Finish {
            outcome: Outcome::Completed,
            response: ResponseOptions {
                cookies: vec![
                    site("login-challenge-token", TOKEN, 1200, false),
                    site("login-email", EMAIL, 1200, false),
                ],
                redirect: Some("/auth/email/challenge".to_string()),
            },
        }
    );
}

#[test]
fn failed_challenge_write_is_a_store_failure() {
    let state = State::WritingChallenge { email: EMAIL.to_string(), challenge: TOKEN.to_string() };
    assert_eq!(next(state, Event::Failed), failed(AuthError::StoreUnavailable));
}

#[test]
fn second_challenge_gets_another_token_while_the_first_stands() {
    let mut store = Ephemeral::default();
    let Step::Finish { outcome: Outcome::Completed, response: first } =
        issue(&mut store, EMAIL, RESPONSE, TOKEN)
    else {
        panic!("first challenge was not issued")
    };
    assert_eq!(first.cookies[0].value, TOKEN);

    // The generator offers the first token again; the store finds its key
    // taken, so another token is drawn.
    let state = State::Mailing { email: EMAIL.to_string(), response: "Zz99Zz99".to_string() };
    let Step::Perform { state, request, .. } = next_with(state, Event::Completed, TOKEN.to_string())
    else {
        panic!("no probe")
    };
    let event = store.perform(&request);
    assert_eq!(event, Event::Exists(true));
    let Step::Perform { state, request, .. } = next(state, event) else { panic!("no second probe") };
    let event = store.perform(&request);
    assert_eq!(event, Event::Exists(false));
    let Step::Perform { state, request, .. } = next(state, event) else { panic!("no write") };
    let Step::Finish { response: second, .. } = next(state, store.perform(&request)) else {
        panic!("second challenge was not issued")
    };
    assert_ne!(second.cookies[0].value, TOKEN);
    assert_eq!(store.challenges.len(), 2);
}

#[test]
fn malformed_answer_is_rejected_without_a_read() {
    let mut store = Ephemeral::default();
    issue(&mut store, EMAIL, RESPONSE, TOKEN);
    let before = store.requests;
    let cases: Vec<(Vec<(String, String)>, &str)> = vec![
        (login_jar("", TOKEN), RESPONSE),
        (jar(&[("login-challenge-token", TOKEN)]), RESPONSE),
        (jar(&[("login-email", EMAIL)]), RESPONSE),
        (Vec::new(), RESPONSE),
        (login_jar(EMAIL, "0123456789abcde"), RESPONSE),
        (login_jar(EMAIL, "0123456789abcdef0"), RESPONSE),
        (login_jar(EMAIL, "0123456789abcde-"), RESPONSE),
        (login_jar(EMAIL, TOKEN), "AbCd123"),
        (login_jar(EMAIL, TOKEN), "AbCd12345"),
        (login_jar(EMAIL, TOKEN), "AbCd 234"),
        (login_jar(EMAIL, TOKEN), ""),
    ];
    for (cookies, response) in cases {
        assert_eq!(answer(&mut store, &cookies, response), rejected(), "{cookies:?} {response:?}");
    }
    assert_eq!(store.requests, before);
}

#[test]
fn well_formed_answer_reads_the_challenge() {
    let step = answer_email_login_challenge(&login_jar(EMAIL, TOKEN), RESPONSE.to_string());
    assert_eq!(
        step,
        Step::Perform {
            state: State::ReadingChallenge {
                email: EMAIL.to_string(),
                challenge: TOKEN.to_string(),
                response: RESPONSE.to_string(),
            },
            request: Request::GetChallenge { key: KEY.to_string() },
            cleanup: None,
        }
    );
}

#[test]
fn right_answer_is_accepted_once() {
    let mut store = Ephemeral::default();
    issue(&mut store, EMAIL, RESPONSE, TOKEN);
    assert!(store.challenges.contains_key(KEY));

    let first = answer(&mut store, &login_jar(EMAIL, TOKEN), RESPONSE);
    assert_eq!(
        first,
        Step::Perform {
            state: State::FindingAccount { email: EMAIL.to_string(), set: login_cookies_removed() },
            request: Request::FindAccount { email: EMAIL.to_string() },
            cleanup: Some(KEY.to_string()),
        }
    );
    assert!(!store.challenges.contains_key(KEY));

    let again = answer(&mut store, &login_jar(EMAIL, TOKEN), RESPONSE);
    assert_eq!(again, rejected());
}

#[test]
fn wrong_answers_are_rejected_alike() {
    let mut store = Ephemeral::default();
    issue(&mut store, EMAIL, RESPONSE, TOKEN);
    let wrong_response = answer(&mut store, &login_jar(EMAIL, TOKEN), "AbCd1235");
    let wrong_email = answer(&mut store, &login_jar("other@example.com", TOKEN), RESPONSE);
    let never_issued = answer(&mut store, &login_jar(EMAIL, "fedcba9876543210"), RESPONSE);
    let malformed = answer(&mut store, &login_jar(EMAIL, "x"), RESPONSE);
    assert_eq!(wrong_response, rejected());
    assert_eq!(wrong_email, wrong_response);
    assert_eq!(never_issued, wrong_response);
    assert_eq!(malformed, wrong_response);
    // None of them used the challenge up.
    assert!(store.challenges.contains_key(KEY));
}

#[test]
fn response_is_compared_exactly() {
    let mut store = Ephemeral::default();
    issue(&mut store, EMAIL, RESPONSE, TOKEN);
    assert_eq!(answer(&mut store, &login_jar(EMAIL, TOKEN), "abcd1234"), rejected());
    assert_eq!(answer(&mut store, &login_jar("User@example.com", TOKEN), RESPONSE), rejected());
}

#[test]
fn record_that_lacks_a_field_rejects() {
    let read = || State::ReadingChallenge {
        email: EMAIL.to_string(),
        challenge: TOKEN.to_string(),
        response: RESPONSE.to_string(),
    };
    let no_response =
        StoredChallenge { email: Some(EMAIL.to_string()), response: None };
    let no_email =
        StoredChallenge { email: None, response: Some(RESPONSE.to_string()) };
    let neither = StoredChallenge { email: None, response: None };
    for record in [Some(no_response), Some(no_email), Some(neither), None] {
        assert_eq!(next(read(), Event::Challenge(record)), rejected());
    }
}

#[test]
fn failed_challenge_read_is_a_store_failure() {
    let state = State::ReadingChallenge {
        email: EMAIL.to_string(),
        challenge: TOKEN.to_string(),
        response: RESPONSE.to_string(),
    };
    assert_eq!(next(state, Event::Failed), failed(AuthError::StoreUnavailable));
}

#[test]
fn known_account_gets_a_session() {
    let state = State::FindingAccount { email: EMAIL.to_string(), set: login_cookies_removed() };
    let account = AccountRecord {
        account_id: AccountId { value: 0x1234 },
        username: Some("alice".to_string()),
        display_name: None,
    };
    let event = Event::Account(Some(account));
    assert!(needs_token(&state, &event));
    let step = next_with(state, event, "SSSSSSSSSSSSSSSS".to_string());
    let Step::Perform { state, request, cleanup: None } = step else { panic!("no session write") };
    assert_eq!(
        request,
        Request::PutSession {
            key: "sess:SSSSSSSSSSSSSSSS".to_string(),
            account_id: "00000000000000000000000000001234".to_string(),
            username: "alice".to_string(),
            display_name: String::new(),
            ttl_secs: 15_552_000,
        }
    );
    let end = next(state, Event::Completed);
    assert_eq!(
        end,
        Step::Finish {
            outcome: Outcome::Completed,
            response: ResponseOptions {
                cookies: vec![
                    removal("login-challenge-token"),
                    removal("login-email"),
                    site("session-token", "SSSSSSSSSSSSSSSS", 15_552_000, true),
                ],
                redirect: Some("/".to_string()),
            },
        }
    );
}

#[test]
fn failed_account_lookup_is_a_store_failure_that_keeps_the_removals() {
    let state = State::FindingAccount { email: EMAIL.to_string(), set: login_cookies_removed() };
    assert_eq!(
        next(state, Event::Failed),
        Step::Finish {
            outcome: Outcome::Failed(AuthError::StoreUnavailable),
            response: login_cookies_removed(),
        }
    );
}

#[test]
fn unknown_email_gets_a_registration_code() {
    let state = State::FindingAccount { email: EMAIL.to_string(), set: login_cookies_removed() };
    let step = next_with(state, Event::Account(None), "RRRRRRRRRRRRRRRR".to_string());
    assert_eq!(
        step,
        Step::Perform {
            state: State::Reserving {
                email: EMAIL.to_string(),
                code: "RRRRRRRRRRRRRRRR".to_string(),
                attempt: 1,
                set: login_cookies_removed(),
            },
            request: Request::PutIfAbsent {
                key: "regnew:RRRRRRRRRRRRRRRR".to_string(),
                value: EMAIL.to_string(),
                ttl_secs: 7200,
            },
            cleanup: None,
        }
    );
}

#[test]
fn claimed_code_sets_the_registration_cookies_and_no_session() {
    let state = State::Reserving {
        email: EMAIL.to_string(),
        code: "RRRRRRRRRRRRRRRR".to_string(),
        attempt: 1,
        set: login_cookies_removed(),
    };
    let end = next(state, Event::Stored(true));
    let Step::Finish { outcome, response } = end else { panic!("not over") };
    assert_eq!(outcome, Outcome::Completed);
    assert_eq!(
        response.cookies,
        vec![
            removal("login-challenge-token"),
            removal("login-email"),
            site("registration-code", "RRRRRRRRRRRRRRRR", 7200, true),
            site("registration-email", EMAIL, 7200, false),
        ]
    );
    assert_eq!(response.redirect, Some("/auth/register".to_string()));
    assert!(response.cookies.iter().all(|cookie| cookie.name != "session-token"));
}

#[test]
fn taken_code_leads_to_another_code() {
    let state = State::Reserving {
        email: EMAIL.to_string(),
        code: "RRRRRRRRRRRRRRRR".to_string(),
        attempt: 1,
        set: login_cookies_removed(),
    };
    assert!(needs_token(&state, &Event::Stored(false)));
    let Step::Perform { state: State::Reserving { code, attempt, .. }, request, .. } =
        next(state, Event::Stored(false))
    else {
        panic!("no second attempt")
    };
    assert_eq!(attempt, 2);
    assert!(well_formed_token(&code, 16));
    assert_eq!(
        request,
        Request::PutIfAbsent { key: format!("regnew:{code}"), value: EMAIL.to_string(), ttl_secs: 7200 }
    );
}

#[test]
fn registration_code_gives_up_after_exactly_ten_attempts() {
    let mut store = Ephemeral { every_key_taken: true, ..Ephemeral::default() };
    let state = State::FindingAccount { email: EMAIL.to_string(), set: login_cookies_removed() };
    let mut step = next(state, Event::Account(None));
    let mut attempts = 0;
    let end = loop {
        match step {
            Step::Perform { state, request, .. } => {
                assert!(matches!(request, Request::PutIfAbsent { .. }));
                attempts += 1;
                step = next(state, store.perform(&request));
            }
            finish => break finish,
        }
    };
    assert_eq!(attempts, 10);
    assert_eq!(
        end,
        Step::Finish {
            outcome: Outcome::Failed(AuthError::EntropyExhausted),
            response: login_cookies_removed(),
        }
    );
    assert!(store.codes.is_empty());
}

#[test]
fn failed_claim_is_a_store_failure() {
    let state = State::Reserving {
        email: EMAIL.to_string(),
        code: "RRRRRRRRRRRRRRRR".to_string(),
        attempt: 1,
        set: login_cookies_removed(),
    };
    assert_eq!(
        next(state, Event::Failed),
        Step::Finish {
            outcome: Outcome::Failed(AuthError::StoreUnavailable),
            response: login_cookies_removed(),
        }
    );
}

#[test]
fn login_of_a_new_email_from_challenge_to_registration_code() {
    let mut store = Ephemeral::default();

    // Issue the challenge.
    let issued = issue(&mut store, EMAIL, RESPONSE, TOKEN);
    let Step::Finish { outcome: Outcome::Completed, response } = issued else {
        panic!("challenge was not issued")
    };
    assert_eq!(
        store.challenges.get(KEY),
        Some(&(EMAIL.to_string(), RESPONSE.to_string(), 1200))
    );
    assert_eq!(store.challenges.len(), 1);
    let token = response.cookies[0].value.clone();
    assert_eq!(token.chars().count(), 16);

    // Answer it with the cookies that were set.
    let cookies: Vec<(String, String)> =
        response.cookies.iter().map(|c| (c.name.clone(), c.value.clone())).collect();
    let accepted = answer(&mut store, &cookies, RESPONSE);
    let Step::Perform { state, request, .. } = accepted else { panic!("answer was not accepted") };
    assert_eq!(request, Request::FindAccount { email: EMAIL.to_string() });

    // No account has this email: a registration code is issued.
    let Step::Perform { state, request, .. } = next(state, Event::Account(None)) else {
        panic!("no registration code")
    };
    let event = store.perform(&request);
    let Step::Finish { outcome, response } = next(state, event) else { panic!("not over") };
    assert_eq!(outcome, Outcome::Completed);
    let names: Vec<&str> = response.cookies.iter().map(|c| c.name.as_str()).collect();
    assert_eq!(
        names,
        vec!["login-challenge-token", "login-email", "registration-code", "registration-email"]
    );
    let code = &response.cookies[2];
    assert!(code.http_only && !code.removal);
    assert!(well_formed_token(&code.value, 16));
    assert_eq!(store.codes.get(&format!("regnew:{}", code.value)), Some(&(EMAIL.to_string(), 7200)));
    assert_eq!(response.cookies[3].value, EMAIL);
    assert!(!response.cookies[3].http_only);
    assert_eq!(response.redirect, Some("/auth/register".to_string()));
}
