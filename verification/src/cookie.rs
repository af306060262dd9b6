//! Cookies, as the values that are read from a request and handed back for
//! the response.

use vstd::prelude::*;
use vstd::string::*;

verus! {

/// Cookie that carries the login challenge token.
pub const CHALLENGE_COOKIE: &'static str = "login-challenge-token";

/// Cookie that carries the email address a challenge was issued for.
pub const LOGIN_EMAIL_COOKIE: &'static str = "login-email";

/// Cookie that carries the registration code.
pub const REGISTRATION_CODE_COOKIE: &'static str = "registration-code";

/// Cookie that carries the email address being registered.
pub const REGISTRATION_EMAIL_COOKIE: &'static str = "registration-email";

/// Cookie that carries the session token.
pub const SESSION_COOKIE: &'static str = "session-token";

/// Minutes for which a login challenge can be answered.
pub const LOGIN_CODE_EXPIRATION_MIN: u64 = 20;

/// Seconds for which a login challenge can be answered.
pub const LOGIN_CODE_EXPIRATION_SEC: u64 = 1200;

/// Minutes for which a registration code can be redeemed.
pub const REGISTRATION_CODE_EXPIRATION_MIN: u64 = 120;

/// Seconds for which a registration code can be redeemed.
pub const REGISTRATION_CODE_EXPIRATION_SEC: u64 = 7200;

/// Days for which a session lasts.
pub const SESSION_TTL_DAYS: u64 = 180;

/// Seconds for which a session lasts.
pub const SESSION_TTL_SEC: u64 = 15_552_000;

/// A cookie to be set on, or removed from, the browser.
#[derive(Clone, Debug, PartialEq, Eq)]
pub struct Cookie {
    pub name: String,
    pub value: String,
    pub path: String,
    pub max_age_secs: u64,
    pub same_site_lax: bool,
    pub http_only: bool,
    /// Set when the cookie only serves to delete the one of the same name.
    pub removal: bool,
}

/// What a [`Cookie`] holds.
pub struct CookieModel {
    pub name: Seq<char>,
    pub value: Seq<char>,
    pub path: Seq<char>,
    pub max_age_secs: u64,
    pub same_site_lax: bool,
    pub http_only: bool,
    pub removal: bool,
}

impl View for Cookie {
    type V = CookieModel;

    open spec fn view(&self) -> CookieModel {
        CookieModel {
            name: self.name@,
            value: self.value@,
            path: self.path@,
            max_age_secs: self.max_age_secs,
            same_site_lax: self.same_site_lax,
            http_only: self.http_only,
            removal: self.removal,
        }
    }
}

impl DeepView for Cookie {
    type V = CookieModel;

    open spec fn deep_view(&self) -> CookieModel {
        self@
    }
}

/// A cookie for the whole site, same-site lax, that lives `max_age_secs`.
pub open spec fn site_cookie_model(
    name: Seq<char>,
    value: Seq<char>,
    max_age_secs: u64,
    http_only: bool,
) -> CookieModel {
    CookieModel {
        name,
        value,
        path: "/"@,
        max_age_secs,
        same_site_lax: true,
        http_only,
        removal: false,
    }
}

/// The cookie that deletes the site-wide cookie `name`.
pub open spec fn removal_cookie_model(name: Seq<char>) -> CookieModel {
    CookieModel {
        name,
        value: Seq::empty(),
        path: "/"@,
        max_age_secs: 0,
        same_site_lax: false,
        http_only: false,
        removal: true,
    }
}

/// The value of the first cookie called `name`, if there is one.
pub open spec fn cookie_lookup(jar: Seq<(Seq<char>, Seq<char>)>, name: Seq<char>) -> Option<
    Seq<char>,
>
    decreases jar.len(),
{
    if jar.len() == 0 {
        None
    } else if jar[0].0 == name {
        Some(jar[0].1)
    } else {
        cookie_lookup(jar.drop_first(), name)
    }
}

/// The value of the first cookie called `name`, or the empty text.
pub open spec fn cookie_value(jar: Seq<(Seq<char>, Seq<char>)>, name: Seq<char>) -> Seq<char> {
    match cookie_lookup(jar, name) {
        Some(value) => value,
        None => Seq::empty(),
    }
}

/// What is handed back with the response: cookies in the order in which they
/// were set, and where to send the browser next.
#[derive(Clone, Debug, PartialEq, Eq)]
pub struct ResponseOptions {
    pub cookies: Vec<Cookie>,
    pub redirect: Option<String>,
}

/// What a [`ResponseOptions`] holds.
pub struct ResponseModel {
    pub cookies: Seq<CookieModel>,
    pub redirect: Option<Seq<char>>,
}

impl View for ResponseOptions {
    type V = ResponseModel;

    open spec fn view(&self) -> ResponseModel {
        ResponseModel { cookies: self.cookies.deep_view(), redirect: self.redirect.deep_view() }
    }
}

impl DeepView for ResponseOptions {
    type V = ResponseModel;

    open spec fn deep_view(&self) -> ResponseModel {
        self@
    }
}

impl ResponseModel {
    /// A response that sets nothing.
    pub open spec fn empty() -> ResponseModel {
        ResponseModel { cookies: Seq::empty(), redirect: None }
    }

    /// The response with one more cookie.
    pub open spec fn with_cookie(self, cookie: CookieModel) -> ResponseModel {
        ResponseModel { cookies: self.cookies.push(cookie), redirect: self.redirect }
    }

    /// The response with its redirect set to `path`.
    pub open spec fn with_redirect(self, path: Seq<char>) -> ResponseModel {
        ResponseModel { cookies: self.cookies, redirect: Some(path) }
    }
}

impl ResponseOptions {
    /// A response that sets no cookie and redirects nowhere.
    pub fn new() -> (response: ResponseOptions)
        ensures
            response@ == ResponseModel::empty(),
    {
        let response = ResponseOptions { cookies: Vec::new(), redirect: None };
        assert(response.cookies.deep_view() =~= Seq::empty());
        response
    }

    /// Sends the browser to `path` once the response is out.
    pub fn redirect(&mut self, path: &str)
        ensures
            final(self)@ == old(self)@.with_redirect(path@),
    {
        self.redirect = Some(String::from_str(path));
    }
}

/// Builds a cookie for the whole site, same-site lax.
pub fn site_cookie(
    name: &str,
    value: String,
    max_age_secs: u64,
    http_only: bool,
) -> (cookie: Cookie)
    ensures
        cookie@ == site_cookie_model(name@, value@, max_age_secs, http_only),
{
    Cookie {
        name: String::from_str(name),
        value,
        path: String::from_str("/"),
        max_age_secs,
        same_site_lax: true,
        http_only,
        removal: false,
    }
}

/// Looks a cookie of the request up: the value of the first cookie called
/// `cookie_name`, if there is one.
pub fn find_cookie(request: &Vec<(String, String)>, cookie_name: &str) -> (value: Option<String>)
    ensures
        value.deep_view() == cookie_lookup(request.deep_view(), cookie_name@),
{
    let wanted = String::from_str(cookie_name);
    let mut i: usize = 0;
    assert(request.deep_view().skip(0) =~= request.deep_view());
    while i < request.len()
        invariant
            i <= request.len(),
            wanted@ == cookie_name@,
            cookie_lookup(request.deep_view(), cookie_name@) == cookie_lookup(
                request.deep_view().skip(i as int),
                cookie_name@,
            ),
        decreases request.len() - i,
    {
        let ghost rest = request.deep_view().skip(i as int);
        assert(rest.len() > 0);
        assert(rest[0] == request@[i as int].deep_view());
        assert(rest.drop_first() =~= request.deep_view().skip(i + 1));
        if request[i].0 == wanted {
            return Some(request[i].1.clone());
        }
        i = i + 1;
    }
    assert(request.deep_view().skip(i as int).len() == 0);
    None
}

/// Reads a cookie of the request as text: the value of the first cookie
/// called `cookie_name`, and the empty text when there is none.
pub fn get_cookie(request: &Vec<(String, String)>, cookie_name: &str) -> (value: String)
    ensures
        value@ == cookie_value(request.deep_view(), cookie_name@),
{
    match find_cookie(request, cookie_name) {
        Some(value) => value,
        None => String::new(),
    }
}

/// Adds `cookie` to what the response sets.
pub fn set_cookie(response_options: &mut ResponseOptions, cookie: Cookie)
    ensures
        final(response_options)@ == old(response_options)@.with_cookie(cookie@),
{
    let ghost before = response_options.cookies.deep_view();
    response_options.cookies.push(cookie);
    assert(response_options.cookies.deep_view() =~= before.push(cookie@));
}

/// Makes the response delete the site-wide cookie `name`.
pub fn remove_cookie(response_options: &mut ResponseOptions, name: &str)
    ensures
        final(response_options)@ == old(response_options)@.with_cookie(removal_cookie_model(name@)),
{
    let removal_cookie = Cookie {
        name: String::from_str(name),
        value: String::new(),
        path: String::from_str("/"),
        max_age_secs: 0,
        same_site_lax: false,
        http_only: false,
        removal: true,
    };
    set_cookie(response_options, removal_cookie);
}

} // verus!
