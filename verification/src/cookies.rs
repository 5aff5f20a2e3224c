use ::cookie::time::Duration;
use ::cookie::{Cookie, SameSite};
use vstd::prelude::*;

use crate::config::UrlParts;
use crate::text::same_chars;

verus! {

/// Session cookie name on HTTPS deployments.
pub const SESSION_COOKIE_HTTPS: &'static str = "__Host-chat_session";

/// Session cookie name on loopback HTTP deployments.
pub const SESSION_COOKIE_HTTP: &'static str = "chat_session";

/// Login cookie name on HTTPS deployments.
pub const LOGIN_COOKIE_HTTPS: &'static str = "__Host-chat_login";

/// Login cookie name on loopback HTTP deployments.
pub const LOGIN_COOKIE_HTTP: &'static str = "chat_login";

/// Lifetime of the session cookie, in seconds (30 days).
pub const SESSION_MAX_AGE_SECONDS: i64 = 2_592_000;

/// Lifetime of the login cookie, in seconds (10 minutes).
pub const LOGIN_MAX_AGE_SECONDS: i64 = 600;

#[verifier::external_type_specification]
#[verifier::external_body]
pub struct ExCookie<'c>(Cookie<'c>);

/// The `SameSite` attribute of a cookie.
#[derive(Clone, Copy, Debug, PartialEq, Eq, Structural)]
pub enum SameSitePolicy {
    Strict,
    Lax,
    Unrestricted,
}

/// Everything a `Set-Cookie` header states about a cookie.
#[derive(Clone, Debug, PartialEq, Eq)]
pub struct CookieAttributes {
    pub name: &'static str,
    pub value: String,
    pub http_only: bool,
    pub secure: bool,
    pub same_site: SameSitePolicy,
    pub path: &'static str,
    pub max_age_seconds: i64,
}

/// The cookie that `Cookie::build` of the `cookie` crate, followed by the
/// builder methods `http_only`, `secure`, `same_site`, `path`, `max_age` and
/// `build`, yields for these attribute values.
pub uninterp spec fn built_cookie(
    name: Seq<char>,
    value: Seq<char>,
    http_only: bool,
    secure: bool,
    same_site: SameSitePolicy,
    path: Seq<char>,
    max_age_seconds: i64,
) -> Cookie<'static>;

/// What `Cookie::name` of the `cookie` crate returns for `c`.
pub uninterp spec fn cookie_name_of(c: Cookie<'static>) -> Seq<char>;

/// What `Cookie::value` of the `cookie` crate returns for `c`.
pub uninterp spec fn cookie_value_of(c: Cookie<'static>) -> Seq<char>;

/// The whole seconds of the duration `Cookie::max_age` of the `cookie` crate
/// returns for `c`, if it returns one.
pub uninterp spec fn cookie_max_age_of(c: Cookie<'static>) -> Option<int>;

/// What `Cookie::path` of the `cookie` crate returns for `c`.
pub uninterp spec fn cookie_path_of(c: Cookie<'static>) -> Option<Seq<char>>;

/// What `Cookie::secure` of the `cookie` crate returns for `c`.
pub uninterp spec fn cookie_secure_of(c: Cookie<'static>) -> Option<bool>;

/// What `Cookie::http_only` of the `cookie` crate returns for `c`.
pub uninterp spec fn cookie_http_only_of(c: Cookie<'static>) -> Option<bool>;

/// What `Cookie::same_site` of the `cookie` crate returns for `c`, each
/// `SameSite` variant read as the policy of the same name (`None` as
/// `Unrestricted`).
pub uninterp spec fn cookie_same_site_of(c: Cookie<'static>) -> Option<SameSitePolicy>;

/// Builds a cookie with exactly `attributes`.
///
/// Trusted: calls `Cookie::build` and the builder methods `http_only`,
/// `secure`, `same_site`, `path` and `max_age` of the `cookie` crate, which
/// only store the values handed to them; the cookie is the one those calls
/// yield for the attributes' values, and its `name`, `value`, `max_age`,
/// `path`, `secure`, `http_only` and `same_site` give back the values handed
/// over.
#[verifier::external_body]
fn build_cookie(attributes: CookieAttributes) -> (r: Cookie<'static>)
    ensures
        cookie_name_of(r) == attributes.name@,
        cookie_value_of(r) == attributes.value@,
        cookie_max_age_of(r) == Some(attributes.max_age_seconds as int),
        cookie_path_of(r) == Some(attributes.path@),
        cookie_secure_of(r) == Some(attributes.secure),
        cookie_http_only_of(r) == Some(attributes.http_only),
        cookie_same_site_of(r) == Some(attributes.same_site),
        r == built_cookie(
            attributes.name@,
            attributes.value@,
            attributes.http_only,
            attributes.secure,
            attributes.same_site,
            attributes.path@,
            attributes.max_age_seconds,
        ),
{
    let same_site = match attributes.same_site {
        SameSitePolicy::Strict => SameSite::Strict,
        SameSitePolicy::Lax => SameSite::Lax,
        SameSitePolicy::Unrestricted => SameSite::None,
    };
    Cookie::build((attributes.name, attributes.value)).http_only(attributes.http_only).secure(
        attributes.secure,
    ).same_site(same_site).path(attributes.path).max_age(
        Duration::seconds(attributes.max_age_seconds),
    ).build()
}

/// Turns `cookie` into one that tells the browser to delete it.
///
/// Trusted: calls `Cookie::make_removal`, which empties the value, sets a
/// zero max-age and an expiry a year in the past (read from the clock) and
/// keeps the name, path, `Secure`, `HttpOnly` and `SameSite`. The expiry
/// depends on the clock, so the cookie as a whole is not stated.
#[verifier::external_body]
fn make_removal(cookie: &mut Cookie<'static>)
    ensures
        cookie_name_of(*final(cookie)) == cookie_name_of(*old(cookie)),
        cookie_value_of(*final(cookie)) == Seq::<char>::empty(),
        cookie_max_age_of(*final(cookie)) == Some(0int),
        cookie_path_of(*final(cookie)) == cookie_path_of(*old(cookie)),
        cookie_secure_of(*final(cookie)) == cookie_secure_of(*old(cookie)),
        cookie_http_only_of(*final(cookie)) == cookie_http_only_of(*old(cookie)),
        cookie_same_site_of(*final(cookie)) == cookie_same_site_of(*old(cookie)),
{
    cookie.make_removal();
}

/// What the `cookie` crate's `Cookie::split_parse` yields for a `Cookie`
/// header: for each `;`-separated piece, its name and value, or `None` when
/// the piece does not parse.
pub uninterp spec fn cookie_split(header: Seq<char>) -> Seq<Option<(Seq<char>, Seq<char>)>>;

/// The view of split cookies.
pub open spec fn pairs_view(items: Seq<Option<(String, String)>>) -> Seq<Option<(Seq<char>, Seq<char>)>> {
    items.map_values(
        |o: Option<(String, String)>|
            match o {
                Some((n, v)) => Some((n@, v@)),
                None => None,
            },
    )
}

/// Splits and parses a `Cookie` header.
///
/// Trusted: calls `Cookie::split_parse` and copies each cookie's name and
/// value; a piece that fails to parse becomes `None`.
#[verifier::external_body]
fn split_cookies(header: &str) -> (r: Vec<Option<(String, String)>>)
    ensures
        pairs_view(r@) == cookie_split(header@),
{
    Cookie::split_parse(header).map(|c| c.ok().map(|c| (c.name().to_owned(), c.value().to_owned()))).collect()
}

/// The error returned for a malformed `Cookie` header or a security cookie
/// that occurs twice.
#[derive(Clone, Copy, Debug, PartialEq, Eq, Structural)]
pub struct CookieError;

/// Whether item `i` is a cookie called `name`.
pub open spec fn is_named(items: Seq<Option<(Seq<char>, Seq<char>)>>, i: int, name: Seq<char>) -> bool {
    items[i] matches Some(p) && p.0 == name
}

/// What looking up `name` among parsed cookies gives: an error when a piece
/// failed to parse or the name occurs twice, otherwise the value of the one
/// cookie with that name, if any.
pub open spec fn cookie_lookup(items: Seq<Option<(Seq<char>, Seq<char>)>>, name: Seq<char>) -> Result<
    Option<Seq<char>>,
    CookieError,
> {
    if exists|i: int| 0 <= i < items.len() && items[i] is None {
        Err(CookieError)
    } else if exists|i: int, j: int|
        0 <= i < j < items.len() && is_named(items, i, name) && is_named(items, j, name) {
        Err(CookieError)
    } else if exists|i: int| 0 <= i < items.len() && is_named(items, i, name) {
        let i = choose|i: int| 0 <= i < items.len() && is_named(items, i, name);
        Ok(Some((items[i]->0).1))
    } else {
        Ok(None)
    }
}

/// Looks up `name` among parsed cookies.
pub fn find_in_cookies(items: &Vec<Option<(String, String)>>, name: &str) -> (r: Result<
    Option<String>,
    CookieError,
>)
    ensures
        match cookie_lookup(pairs_view(items@), name@) {
            Err(e) => r == Err::<Option<String>, CookieError>(e),
            Ok(None) => r matches Ok(None),
            Ok(Some(v)) => r matches Ok(Some(s)) && s@ == v,
        },
{
    let ghost view = pairs_view(items@);
    let mut found: Option<String> = None;
    let ghost mut at: int = -1;
    let mut i: usize = 0;
    while i < items.len()
        invariant
            i <= items@.len(),
            view == pairs_view(items@),
            view.len() == items@.len(),
            forall|j: int| 0 <= j < i ==> !(#[trigger] view[j] is None),
            found is None ==> forall|j: int| 0 <= j < i ==> !is_named(view, j, name@),
            found matches Some(v) ==> (0 <= at < i && is_named(view, at, name@) && (view[at]->0).1
                == v@ && forall|j: int| 0 <= j < i && j != at ==> !is_named(view, j, name@)),
        decreases items.len() - i,
    {
        match &items[i] {
            None => {
                assert(view[i as int] is None);
                return Err(CookieError);
            },
            Some((n, v)) => {
                if same_chars(n.as_str(), name) {
                    if found.is_some() {
                        assert(is_named(view, at, name@) && is_named(view, i as int, name@));
                        return Err(CookieError);
                    }
                    found = Some(v.clone());
                    proof {
                        at = i as int;
                    }
                }
            },
        }
        i = i + 1;
    }
    proof {
        assert(!exists|j: int| 0 <= j < view.len() && view[j] is None);
        if found is Some {
            assert(!exists|a: int, b: int|
                0 <= a < b < view.len() && is_named(view, a, name@) && is_named(view, b, name@));
            let c = choose|j: int| 0 <= j < view.len() && is_named(view, j, name@);
            assert(c == at);
        }
    }
    Ok(found)
}

/// The cookie rules of one deployment: secure cookies with host-prefixed
/// names on HTTPS, plain names on loopback HTTP.
#[derive(Clone, Copy, Debug, PartialEq, Eq, Structural)]
pub struct CookiePolicy {
    secure: bool,
}

impl CookiePolicy {
    /// Cookies are secure exactly when the public URL uses HTTPS.
    pub fn new(public_url: &UrlParts) -> (r: Self)
        ensures
            r.is_secure() == (public_url@.scheme == "https"@),
    {
        CookiePolicy { secure: same_chars(public_url.scheme.as_str(), "https") }
    }

    /// Whether cookies carry the `Secure` attribute.
    pub closed spec fn is_secure(&self) -> bool {
        self.secure
    }

    /// Returns the session cookie's name.
    pub fn session_name(&self) -> (r: &'static str)
        ensures
            r == (if self.is_secure() {
                SESSION_COOKIE_HTTPS
            } else {
                SESSION_COOKIE_HTTP
            }),
    {
        if self.secure {
            SESSION_COOKIE_HTTPS
        } else {
            SESSION_COOKIE_HTTP
        }
    }

    /// Returns the login cookie's name.
    pub fn login_name(&self) -> (r: &'static str)
        ensures
            r == (if self.is_secure() {
                LOGIN_COOKIE_HTTPS
            } else {
                LOGIN_COOKIE_HTTP
            }),
    {
        if self.secure {
            LOGIN_COOKIE_HTTPS
        } else {
            LOGIN_COOKIE_HTTP
        }
    }

    /// The attributes every cookie of this policy has: HTTP-only, `Secure`
    /// per the policy, `SameSite=Lax`, path `/`.
    pub open spec fn shaped(&self, a: CookieAttributes, name: &'static str, value: Seq<char>, max_age: i64) -> bool {
        &&& a.name == name
        &&& a.value@ == value
        &&& a.http_only
        &&& a.secure == self.is_secure()
        &&& a.same_site == SameSitePolicy::Lax
        &&& a.path@ == "/"@
        &&& a.max_age_seconds == max_age
    }

    fn attributes(&self, name: &'static str, value: String, max_age_seconds: i64) -> (r: CookieAttributes)
        ensures
            self.shaped(r, name, value@, max_age_seconds),
    {
        CookieAttributes {
            name,
            value,
            http_only: true,
            secure: self.secure,
            same_site: SameSitePolicy::Lax,
            path: "/",
            max_age_seconds,
        }
    }

    /// The attributes of the session cookie holding `value`, kept for 30 days.
    pub fn session_cookie_attributes(&self, value: String) -> (r: CookieAttributes)
        ensures
            self.shaped(r, self.session_name_spec(), value@, SESSION_MAX_AGE_SECONDS),
    {
        self.attributes(self.session_name(), value, SESSION_MAX_AGE_SECONDS)
    }

    /// The attributes of the login cookie holding `value`, kept for 10
    /// minutes.
    pub fn login_cookie_attributes(&self, value: String) -> (r: CookieAttributes)
        ensures
            self.shaped(r, self.login_name_spec(), value@, LOGIN_MAX_AGE_SECONDS),
    {
        self.attributes(self.login_name(), value, LOGIN_MAX_AGE_SECONDS)
    }

    /// The session cookie's name, as [`CookiePolicy::session_name`] returns it.
    pub open spec fn session_name_spec(&self) -> &'static str {
        if self.is_secure() {
            SESSION_COOKIE_HTTPS
        } else {
            SESSION_COOKIE_HTTP
        }
    }

    /// The login cookie's name, as [`CookiePolicy::login_name`] returns it.
    pub open spec fn login_name_spec(&self) -> &'static str {
        if self.is_secure() {
            LOGIN_COOKIE_HTTPS
        } else {
            LOGIN_COOKIE_HTTP
        }
    }

    /// The attributes besides name, value and max-age that every cookie of
    /// this policy carries: path `/`, `Secure` per the policy, `HttpOnly`,
    /// `SameSite=Lax`.
    pub open spec fn carries_policy_attributes(&self, c: Cookie<'static>) -> bool {
        &&& cookie_path_of(c) == Some("/"@)
        &&& cookie_secure_of(c) == Some(self.is_secure())
        &&& cookie_http_only_of(c) == Some(true)
        &&& cookie_same_site_of(c) == Some(SameSitePolicy::Lax)
    }

    /// The cookie of this policy called `name`, holding `value` for
    /// `max_age` seconds.
    pub open spec fn policy_cookie(&self, name: &'static str, value: Seq<char>, max_age: i64) -> Cookie<'static> {
        built_cookie(name@, value, true, self.is_secure(), SameSitePolicy::Lax, "/"@, max_age)
    }

    /// Builds the session cookie holding `value`.
    pub fn session_cookie(&self, value: String) -> (r: Cookie<'static>)
        ensures
            r == self.policy_cookie(self.session_name_spec(), value@, SESSION_MAX_AGE_SECONDS),
            cookie_name_of(r) == self.session_name_spec()@,
            cookie_value_of(r) == value@,
            cookie_max_age_of(r) == Some(SESSION_MAX_AGE_SECONDS as int),
            self.carries_policy_attributes(r),
    {
        build_cookie(self.session_cookie_attributes(value))
    }

    /// Builds the login cookie holding `value`.
    pub fn login_cookie(&self, value: String) -> (r: Cookie<'static>)
        ensures
            r == self.policy_cookie(self.login_name_spec(), value@, LOGIN_MAX_AGE_SECONDS),
            cookie_name_of(r) == self.login_name_spec()@,
            cookie_value_of(r) == value@,
            cookie_max_age_of(r) == Some(LOGIN_MAX_AGE_SECONDS as int),
            self.carries_policy_attributes(r),
    {
        build_cookie(self.login_cookie_attributes(value))
    }

    /// The attributes a cookie called `name` is built with before it is
    /// turned into a removal: empty and expiring at once.
    pub fn removal_attributes(&self, name: &'static str) -> (r: CookieAttributes)
        ensures
            self.shaped(r, name, Seq::empty(), 0),
    {
        self.attributes(name, String::new(), 0)
    }

    /// Builds a cookie that deletes the session cookie: the same name, path,
    /// `Secure`, `HttpOnly` and `SameSite` as the session cookie, an empty value
    /// and a zero max-age.
    pub fn remove_session_cookie(&self) -> (r: Cookie<'static>)
        ensures
            cookie_name_of(r) == self.session_name_spec()@,
            cookie_value_of(r) == Seq::<char>::empty(),
            cookie_max_age_of(r) == Some(0int),
            self.carries_policy_attributes(r),
    {
        let mut cookie = build_cookie(self.removal_attributes(self.session_name()));
        make_removal(&mut cookie);
        cookie
    }

    /// Builds a cookie that deletes the login cookie: the same name, path,
    /// `Secure`, `HttpOnly` and `SameSite` as the login cookie, an empty value
    /// and a zero max-age.
    pub fn remove_login_cookie(&self) -> (r: Cookie<'static>)
        ensures
            cookie_name_of(r) == self.login_name_spec()@,
            cookie_value_of(r) == Seq::<char>::empty(),
            cookie_max_age_of(r) == Some(0int),
            self.carries_policy_attributes(r),
    {
        let mut cookie = build_cookie(self.removal_attributes(self.login_name()));
        make_removal(&mut cookie);
        cookie
    }

    /// Looks up the cookie called `name` in one `Cookie` header.
    pub fn find(&self, header: &str, name: &str) -> (r: Result<Option<String>, CookieError>)
        ensures
            match cookie_lookup(cookie_split(header@), name@) {
                Err(e) => r == Err::<Option<String>, CookieError>(e),
                Ok(None) => r matches Ok(None),
                Ok(Some(v)) => r matches Ok(Some(s)) && s@ == v,
            },
    {
        let items = split_cookies(header);
        find_in_cookies(&items, name)
    }
}

/// What looking up `name` across several `Cookie` headers gives: the first
/// header whose lookup fails or finds the cookie decides; without one, the
/// cookie is absent.
pub open spec fn lookup_in_headers(headers: Seq<Seq<char>>, name: Seq<char>) -> Result<Option<Seq<char>>, CookieError>
    decreases headers.len(),
{
    if headers.len() == 0 {
        Ok(None)
    } else {
        match cookie_lookup(cookie_split(headers[0]), name) {
            Ok(None) => lookup_in_headers(headers.drop_first(), name),
            other => other,
        }
    }
}

/// Looks up the cookie called `name` across the request's `Cookie` headers
/// (those that are valid text).
pub fn cookie_value(policy: &CookiePolicy, headers: &Vec<String>, name: &str) -> (r: Result<
    Option<String>,
    CookieError,
>)
    ensures
        match lookup_in_headers(headers@.map_values(|h: String| h@), name@) {
            Err(e) => r == Err::<Option<String>, CookieError>(e),
            Ok(None) => r matches Ok(None),
            Ok(Some(v)) => r matches Ok(Some(s)) && s@ == v,
        },
{
    let ghost all = headers@.map_values(|h: String| h@);
    assert(all.skip(0) =~= all);
    let mut i: usize = 0;
    while i < headers.len()
        invariant
            i <= headers@.len(),
            all == headers@.map_values(|h: String| h@),
            lookup_in_headers(all, name@) == lookup_in_headers(all.skip(i as int), name@),
        decreases headers.len() - i,
    {
        let ghost rest = all.skip(i as int);
        assert(rest[0] == headers@[i as int]@);
        assert(rest.drop_first() =~= all.skip(i + 1));
        match policy.find(headers[i].as_str(), name) {
            Ok(None) => {},
            other => return other,
        }
        i = i + 1;
    }
    assert(all.skip(headers@.len() as int).len() == 0);
    Ok(None)
}

} // verus!
