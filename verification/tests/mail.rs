use questarch::mail::{append_decimal, login_code, valid_email};

#[test]
fn ordinary_address_is_valid() {
    assert!(valid_email("user@example.com"));
    assert!(valid_email("first.last+tag@sub.example.org"));
}

#[test]
fn address_with_an_ip_domain_is_valid() {
    assert!(valid_email("something@1.1.1.1"));
    assert!(valid_email("something@[2606:4700:4700::1111]"));
}

#[test]
fn empty_text_is_no_address() {
    assert!(!valid_email(""));
}

#[test]
fn text_without_both_parts_is_no_address() {
    assert!(!valid_email("user"));
    assert!(!valid_email("user@"));
    assert!(!valid_email("@example.com"));
    assert!(!valid_email("user example.com"));
}

#[test]
fn address_with_a_space_in_the_user_is_no_address() {
    assert!(!valid_email("us er@example.com"));
}

#[test]
fn decimal_of_zero() {
    let mut text = String::from("n=");
    append_decimal(&mut text, 0);
    assert_eq!(text, "n=0");
}

#[test]
fn decimal_of_single_and_many_digits() {
    let mut text = String::new();
    append_decimal(&mut text, 7);
    append_decimal(&mut text, 20);
    append_decimal(&mut text, 1005);
    assert_eq!(text, "7201005");
}

#[test]
fn decimal_of_the_largest_number() {
    let mut text = String::new();
    append_decimal(&mut text, u64::MAX);
    assert_eq!(text, "18446744073709551615");
}

#[test]
fn login_mail_names_the_code_and_the_window() {
    let mail = login_code("user@example.com", "AbCd1234", 20);
    assert_eq!(mail.to, "user@example.com");
    assert_eq!(mail.subject, "Email login/registration code");
    assert_eq!(mail.code, "AbCd1234");
    assert_eq!(mail.expires_in_min, 20);
    assert_eq!(
        mail.plain_text,
        "Email login/registration code\n\nHello,\nThis is an email login code for <site>.\n\n\
         AbCd1234\n\nPlease go back to the page you requested it from and enter it there within \
         20 minutes. If you did not request this login code, you can ignore it.\n\nGoodbye.\n"
    );
}

#[test]
fn login_mail_with_another_window() {
    let mail = login_code("a@b.example", "zzzzzzzz", 120);
    assert!(mail.plain_text.contains("\n\nzzzzzzzz\n\n"));
    assert!(mail.plain_text.contains(" within 120 minutes. "));
}
