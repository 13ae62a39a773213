//! The login session: the bearer key and the two session cookies that
//! authenticated calls carry.

use vstd::prelude::*;
use crate::text::{owned, push_str, str_eq};

verus! {

/// The login endpoint of the platform.
pub const LOGIN_URL: &'static str = "https://dreamhack.io/api/v1/auth/login/";

/// Credentials posted to the login endpoint.
#[derive(Debug, Clone)]
pub struct Login {
    pub email: String,
    pub password: String,
    pub save_login: bool,
}

impl Login {
    pub fn new(email: &str, password: &str, save_login: bool) -> (r: Login)
        ensures
            r.email@ == email@,
            r.password@ == password@,
            r.save_login == save_login,
    {
        Login { email: owned(email), password: owned(password), save_login }
    }
}

#[derive(Debug, Clone)]
pub struct AuthKey(pub String);

#[derive(Debug, Clone)]
pub struct AuthCookies {
    pub csrf_token: String,
    pub sessionid: String,
}

#[derive(Debug, Clone)]
pub struct Auth {
    pub key: AuthKey,
    pub cookies: AuthCookies,
}

/// The value of the last cookie called `name`, or nothing when none is.
pub open spec fn last_cookie(pairs: Seq<(Seq<char>, Seq<char>)>, name: Seq<char>) -> Seq<char>
    decreases pairs.len(),
{
    if pairs.len() == 0 {
        Seq::empty()
    } else if pairs.last().0 == name {
        pairs.last().1
    } else {
        last_cookie(pairs.drop_last(), name)
    }
}

pub open spec fn cookie_pairs_view(pairs: Seq<(String, String)>) -> Seq<(Seq<char>, Seq<char>)> {
    pairs.map_values(|p: (String, String)| (p.0@, p.1@))
}

impl AuthCookies {
    /// The `Cookie` header value of the session:
    /// `csrf_token=<token>; sessionid=<id>`.
    pub open spec fn request_spec(&self) -> Seq<char> {
        "csrf_token="@ + self.csrf_token@ + "; sessionid="@ + self.sessionid@
    }

    pub fn new(csrf_token: String, sessionid: String) -> (r: AuthCookies)
        ensures
            r.csrf_token == csrf_token,
            r.sessionid == sessionid,
    {
        AuthCookies { csrf_token, sessionid }
    }

    /// The session cookies among the cookies of a login answer: the last
    /// `csrf_token` and the last `sessionid`; others are ignored, and a
    /// missing one is empty.
    pub fn from_pairs(pairs: &Vec<(String, String)>) -> (r: AuthCookies)
        ensures
            r.csrf_token@ == last_cookie(cookie_pairs_view(pairs@), "csrf_token"@),
            r.sessionid@ == last_cookie(cookie_pairs_view(pairs@), "sessionid"@),
    {
        let mut csrf_token = String::new();
        let mut sessionid = String::new();
        let mut i: usize = 0;
        while i < pairs.len()
            invariant
                i <= pairs@.len(),
                csrf_token@ == last_cookie(cookie_pairs_view(pairs@.take(i as int)), "csrf_token"@),
                sessionid@ == last_cookie(cookie_pairs_view(pairs@.take(i as int)), "sessionid"@),
            decreases pairs@.len() - i,
        {
            let ghost before = cookie_pairs_view(pairs@.take(i as int));
            let ghost after = cookie_pairs_view(pairs@.take(i + 1));
            assert(after.drop_last() =~= before);
            assert(after.last() == (pairs@[i as int].0@, pairs@[i as int].1@));
            proof {
                reveal_strlit("csrf_token");
                reveal_strlit("sessionid");
                assert("csrf_token"@[0] != "sessionid"@[0]);
            }
            let (name, value) = &pairs[i];
            if str_eq(name.as_str(), "csrf_token") {
                csrf_token = value.clone();
            } else if str_eq(name.as_str(), "sessionid") {
                sessionid = value.clone();
            }
            i += 1;
        }
        assert(pairs@.take(pairs@.len() as int) =~= pairs@);
        AuthCookies { csrf_token, sessionid }
    }

    pub fn to_request(&self) -> (r: String)
        ensures
            r@ == self.request_spec(),
    {
        let mut r = owned("csrf_token=");
        push_str(&mut r, self.csrf_token.as_str());
        push_str(&mut r, "; sessionid=");
        push_str(&mut r, self.sessionid.as_str());
        r
    }

    pub fn get_csrf_token(&self) -> (r: &str)
        ensures
            r@ == self.csrf_token@,
    {
        self.csrf_token.as_str()
    }
}

impl Auth {
    pub fn new(key: String, cookies: AuthCookies) -> (r: Auth)
        ensures
            r.key.0 == key,
            r.cookies == cookies,
    {
        Auth { key: AuthKey(key), cookies }
    }

    /// A session with no key and empty cookies, before login.
    pub fn empty() -> (r: Auth)
        ensures
            r.key.0@.len() == 0,
            r.cookies.csrf_token@.len() == 0,
            r.cookies.sessionid@.len() == 0,
    {
        Auth { key: AuthKey(String::new()), cookies: AuthCookies { csrf_token: String::new(), sessionid: String::new() } }
    }

    pub fn get_key(&self) -> (r: &str)
        ensures
            r@ == self.key.0@,
    {
        self.key.0.as_str()
    }

    pub fn get_cookies(&self) -> (r: &AuthCookies)
        ensures
            *r == self.cookies,
    {
        &self.cookies
    }

    /// Whether the session holds a key; authenticated calls need one.
    pub fn has_key(&self) -> (r: bool)
        ensures
            r == (self.key.0@.len() > 0),
    {
        self.key.0.as_str().unicode_len() > 0
    }

    /// The headers of an authenticated call: the cookie header, and the
    /// CSRF token as `X-Csrftoken` when `with_csrf` (calls that change state).
    pub fn request_headers(&self, with_csrf: bool) -> (r: Vec<(String, String)>)
        ensures
            r@.len() == if with_csrf { 2int } else { 1int },
            r@[0].0@ == "Cookie"@,
            r@[0].1@ == "i18n_redirected=ko; "@ + self.cookies.request_spec(),
            with_csrf ==> r@[1].0@ == "X-Csrftoken"@ && r@[1].1@ == self.cookies.csrf_token@,
    {
        let mut r: Vec<(String, String)> = Vec::new();
        r.push((owned("Cookie"), self.cookie_header()));
        if with_csrf {
            r.push((owned("X-Csrftoken"), self.cookies.csrf_token.clone()));
        }
        r
    }

    /// The `Cookie` header of authenticated calls: the locale cookie the
    /// platform expects, then the session cookies.
    pub fn cookie_header(&self) -> (r: String)
        ensures
            r@ == "i18n_redirected=ko; "@ + self.cookies.request_spec(),
    {
        let mut r = owned("i18n_redirected=ko; ");
        let c = self.cookies.to_request();
        push_str(&mut r, c.as_str());
        r
    }
}

} // verus!
