//! The mail that carries a login code, and which addresses it can go to.

use lettre::address::Address;
use vstd::prelude::*;
use vstd::string::*;

verus! {

/// Whether `lettre` accepts a text as an email address: a function of the
/// text alone, too long to write out here.
pub uninterp spec fn address_accepted(email: Seq<char>) -> bool;

/// An address that a login code can be mailed to. The empty text is ruled
/// out here, so that nothing need be known of what the parser makes of it.
pub open spec fn is_valid_email(email: Seq<char>) -> bool {
    email.len() > 0 && address_accepted(email)
}

/// Parses `email` with `lettre::address::Address::from_str` and tells
/// whether that succeeded. The parser reads nothing but its argument.
#[verifier::external_body]
pub(crate) fn parses_as_address(email: &str) -> (ok: bool)
    ensures
        ok == address_accepted(email@),
{
    email.parse::<Address>().is_ok()
}

/// Whether a login code can be mailed to `email`.
pub fn valid_email(email: &str) -> (ok: bool)
    ensures
        ok == is_valid_email(email@),
{
    !email.is_empty() && parses_as_address(email)
}

/// A login code on its way to a mailbox. The caller renders the HTML part
/// and hands the message to its transport.
#[derive(Clone, Debug, PartialEq, Eq)]
pub struct LoginMail {
    pub to: String,
    pub subject: String,
    pub code: String,
    pub expires_in_min: u64,
    pub plain_text: String,
}

/// What a [`LoginMail`] holds.
pub struct LoginMailModel {
    pub to: Seq<char>,
    pub subject: Seq<char>,
    pub code: Seq<char>,
    pub expires_in_min: u64,
    pub plain_text: Seq<char>,
}

impl View for LoginMail {
    type V = LoginMailModel;

    open spec fn view(&self) -> LoginMailModel {
        LoginMailModel {
            to: self.to@,
            subject: self.subject@,
            code: self.code@,
            expires_in_min: self.expires_in_min,
            plain_text: self.plain_text@,
        }
    }
}

impl DeepView for LoginMail {
    type V = LoginMailModel;

    open spec fn deep_view(&self) -> LoginMailModel {
        self@
    }
}

/// The decimal digit for `d`, where `0 <= d < 10`.
pub open spec fn decimal_digit(d: int) -> char {
    (48 + d) as char
}

/// `n` in decimal, without leading zeros.
pub open spec fn decimal(n: nat) -> Seq<char>
    decreases n,
{
    if n < 10 {
        seq![decimal_digit(n as int)]
    } else {
        decimal(n / 10).push(decimal_digit((n % 10) as int))
    }
}

/// The plain-text part of the mail for `code`.
pub open spec fn plain_text_model(code: Seq<char>, expires_in_min: u64) -> Seq<char> {
    "Email login/registration code\n\nHello,\nThis is an email login code for <site>.\n\n"@ + code
        + "\n\nPlease go back to the page you requested it from and enter it there within "@
        + decimal(expires_in_min as nat)
        + " minutes. If you did not request this login code, you can ignore it.\n\nGoodbye.\n"@
}

/// The mail that brings `code` to `email_address`.
pub open spec fn login_code_model(
    email_address: Seq<char>,
    code: Seq<char>,
    expires_in_min: u64,
) -> LoginMailModel {
    LoginMailModel {
        to: email_address,
        subject: "Email login/registration code"@,
        code,
        expires_in_min,
        plain_text: plain_text_model(code, expires_in_min),
    }
}

/// The decimal digit `d` as text.
fn digit_text(d: u64) -> (text: &'static str)
    requires
        d < 10,
    ensures
        text@ == seq![decimal_digit(d as int)],
{
    proof {
        reveal_strlit("0");
        reveal_strlit("1");
        reveal_strlit("2");
        reveal_strlit("3");
        reveal_strlit("4");
        reveal_strlit("5");
        reveal_strlit("6");
        reveal_strlit("7");
        reveal_strlit("8");
        reveal_strlit("9");
    }
    let text = if d == 0 {
        "0"
    } else if d == 1 {
        "1"
    } else if d == 2 {
        "2"
    } else if d == 3 {
        "3"
    } else if d == 4 {
        "4"
    } else if d == 5 {
        "5"
    } else if d == 6 {
        "6"
    } else if d == 7 {
        "7"
    } else if d == 8 {
        "8"
    } else {
        "9"
    };
    assert(text@ =~= seq![decimal_digit(d as int)]);
    text
}

/// Appends `n` in decimal to `text`.
pub fn append_decimal(text: &mut String, n: u64)
    ensures
        final(text)@ == old(text)@ + decimal(n as nat),
    decreases n,
{
    if n >= 10 {
        append_decimal(text, n / 10);
    }
    text.append(digit_text(n % 10));
    proof {
        if n >= 10 {
            assert(old(text)@ + decimal((n / 10) as nat) + seq![decimal_digit((n % 10) as int)]
                =~= old(text)@ + decimal(n as nat));
        }
    }
}

/// Composes the mail that brings the login code `code` to `email_address`
/// and says for how many minutes the code is good.
pub fn login_code(email_address: &str, code: &str, expires_in_min: u64) -> (mail: LoginMail)
    ensures
        mail@ == login_code_model(email_address@, code@, expires_in_min),
{
    let mut plain_text = String::from_str(
        "Email login/registration code\n\nHello,\nThis is an email login code for <site>.\n\n",
    );
    plain_text.append(code);
    plain_text.append(
        "\n\nPlease go back to the page you requested it from and enter it there within ",
    );
    append_decimal(&mut plain_text, expires_in_min);
    plain_text.append(
        " minutes. If you did not request this login code, you can ignore it.\n\nGoodbye.\n",
    );
    LoginMail {
        to: String::from_str(email_address),
        subject: String::from_str("Email login/registration code"),
        code: String::from_str(code),
        expires_in_min,
        plain_text,
    }
}

} // verus!
