use url::{Host, Url};
use vstd::prelude::*;

use crate::text::same_chars;

verus! {

/// Environment variable that configures the HTTP listen address.
pub const LISTEN_ADDR_ENV: &'static str = "CHAT_LISTEN_ADDR";

/// Environment variable that configures the SQLite database path.
pub const DATABASE_PATH_ENV: &'static str = "CHAT_DATABASE_PATH";

/// Environment variable that configures the externally visible server URL.
pub const PUBLIC_URL_ENV: &'static str = "CHAT_PUBLIC_URL";

/// Environment variable that configures the OpenID Connect issuer.
pub const OIDC_ISSUER_ENV: &'static str = "CHAT_OIDC_ISSUER";

/// Environment variable that configures the OpenID Connect client ID.
pub const OIDC_CLIENT_ID_ENV: &'static str = "CHAT_OIDC_CLIENT_ID";

/// Environment variable that configures the optional OpenID Connect client
/// secret.
pub const OIDC_CLIENT_SECRET_ENV: &'static str = "CHAT_OIDC_CLIENT_SECRET";

/// Environment variable that configures new-user admission.
pub const ADMISSION_MODE_ENV: &'static str = "CHAT_ADMISSION_MODE";

/// Database path used when none is configured.
pub const DEFAULT_DATABASE_PATH: &'static str = "chat.sqlite3";

/// Public URL used when none is configured.
pub const DEFAULT_PUBLIC_URL: &'static str = "http://127.0.0.1:3000";

#[verifier::external_type_specification]
#[verifier::external_body]
pub struct ExUrlParseError(url::ParseError);

/// The host of a parsed URL.
#[derive(Clone, Debug, PartialEq, Eq)]
pub enum UrlHost {
    /// A domain name.
    Domain(String),
    /// An IPv4 address, as its four octets.
    Ipv4([u8; 4]),
    /// An IPv6 address, as its eight 16-bit segments.
    Ipv6([u16; 8]),
}

/// A URL host as contracts speak of it.
pub enum UrlHostView {
    Domain(Seq<char>),
    Ipv4(Seq<u8>),
    Ipv6(Seq<u16>),
}

impl View for UrlHost {
    type V = UrlHostView;

    open spec fn view(&self) -> UrlHostView {
        match self {
            UrlHost::Domain(d) => UrlHostView::Domain(d@),
            UrlHost::Ipv4(a) => UrlHostView::Ipv4(a@),
            UrlHost::Ipv6(a) => UrlHostView::Ipv6(a@),
        }
    }
}

/// The parts of a parsed URL that the server's rules read: its scheme, user
/// information, host, path, query and fragment.
#[derive(Clone, Debug, PartialEq, Eq)]
pub struct UrlParts {
    pub scheme: String,
    pub username: String,
    pub password: Option<String>,
    pub host: Option<UrlHost>,
    pub path: String,
    pub query: Option<String>,
    pub fragment: Option<String>,
}

/// A parsed URL as contracts speak of it.
pub struct UrlPartsView {
    pub scheme: Seq<char>,
    pub username: Seq<char>,
    pub password: Option<Seq<char>>,
    pub host: Option<UrlHostView>,
    pub path: Seq<char>,
    pub query: Option<Seq<char>>,
    pub fragment: Option<Seq<char>>,
}

/// The view of an optional string.
pub open spec fn opt_view(s: Option<String>) -> Option<Seq<char>> {
    match s {
        Some(v) => Some(v@),
        None => None,
    }
}

impl View for UrlParts {
    type V = UrlPartsView;

    open spec fn view(&self) -> UrlPartsView {
        UrlPartsView {
            scheme: self.scheme@,
            username: self.username@,
            password: opt_view(self.password),
            host: match self.host {
                Some(h) => Some(h@),
                None => None,
            },
            path: self.path@,
            query: opt_view(self.query),
            fragment: opt_view(self.fragment),
        }
    }
}

/// What the WHATWG URL parser of the `url` crate makes of `input`, or `None`
/// when `input` is not a valid absolute URL.
pub uninterp spec fn url_parse(input: Seq<char>) -> Option<UrlPartsView>;

/// Parses an absolute URL.
///
/// Trusted: calls `url::Url::parse` and copies out the URL's scheme,
/// username, password, host, path, query and fragment.
#[verifier::external_body]
fn parse_url(input: &str) -> (r: Result<UrlParts, url::ParseError>)
    ensures
        r is Ok <==> url_parse(input@) is Some,
        r matches Ok(p) ==> url_parse(input@) == Some(p@),
{
    let u = Url::parse(input)?;
    let host = match u.host() {
        Some(Host::Domain(d)) => Some(UrlHost::Domain(d.to_owned())),
        Some(Host::Ipv4(a)) => Some(UrlHost::Ipv4(a.octets())),
        Some(Host::Ipv6(a)) => Some(UrlHost::Ipv6(a.segments())),
        None => None,
    };
    Ok(UrlParts {
        scheme: u.scheme().to_owned(), username: u.username().to_owned(),
        password: u.password().map(str::to_owned), host, path: u.path().to_owned(),
        query: u.query().map(str::to_owned), fragment: u.fragment().map(str::to_owned),
    })
}

/// ASCII case folding of one character.
pub open spec fn ascii_lower(c: char) -> char {
    if 'A' <= c <= 'Z' {
        ((c as u32) + 32) as char
    } else {
        c
    }
}

/// Whether two strings are equal when ASCII letters are compared without
/// case, as `str::eq_ignore_ascii_case` decides.
pub open spec fn eq_ignore_ascii_case(a: Seq<char>, b: Seq<char>) -> bool {
    &&& a.len() == b.len()
    &&& forall|i: int| 0 <= i < a.len() ==> ascii_lower(#[trigger] a[i]) == ascii_lower(b[i])
}

/// Whether a host names the local machine: an IPv4 address in 127.0.0.0/8,
/// the IPv6 address `::1`, or the domain `localhost` in any ASCII case.
pub open spec fn loopback_host(host: Option<UrlHostView>) -> bool {
    match host {
        Some(UrlHostView::Ipv4(a)) => a.len() == 4 && a[0] == 127,
        Some(UrlHostView::Ipv6(s)) => s == seq![0u16, 0, 0, 0, 0, 0, 0, 1],
        Some(UrlHostView::Domain(d)) => eq_ignore_ascii_case(d, "localhost"@),
        None => false,
    }
}

fn ascii_lower_char(c: char) -> (r: char)
    ensures
        r == ascii_lower(c),
{
    if 'A' <= c && c <= 'Z' {
        ((c as u32) + 32) as u8 as char
    } else {
        c
    }
}

/// Whether `a` equals `b` up to ASCII case.
pub fn equals_ignoring_ascii_case(a: &str, b: &str) -> (r: bool)
    ensures
        r == eq_ignore_ascii_case(a@, b@),
{
    let x = crate::text::chars_of(a);
    let y = crate::text::chars_of(b);
    if x.len() != y.len() {
        return false;
    }
    let mut i: usize = 0;
    while i < x.len()
        invariant
            i <= x@.len(),
            x@ == a@,
            y@ == b@,
            x@.len() == y@.len(),
            forall|j: int| 0 <= j < i ==> ascii_lower(#[trigger] x@[j]) == ascii_lower(y@[j]),
        decreases x.len() - i,
    {
        if ascii_lower_char(x[i]) != ascii_lower_char(y[i]) {
            return false;
        }
        i = i + 1;
    }
    true
}

/// Whether `host` names the local machine.
pub fn is_loopback_host(host: &Option<UrlHost>) -> (r: bool)
    ensures
        r == loopback_host(
            match host {
                Some(h) => Some(h@),
                None => None,
            },
        ),
{
    match host {
        Some(UrlHost::Ipv4(a)) => a[0] == 127,
        Some(UrlHost::Ipv6(s)) => {
            let ok = s[0] == 0 && s[1] == 0 && s[2] == 0 && s[3] == 0 && s[4] == 0 && s[5] == 0
                && s[6] == 0 && s[7] == 1;
            assert(ok == (s@ =~= seq![0u16, 0, 0, 0, 0, 0, 0, 1]));
            ok
        },
        Some(UrlHost::Domain(d)) => equals_ignoring_ascii_case(d.as_str(), "localhost"),
        None => false,
    }
}

/// The verdict on a URL meant as a web origin: it must be absolute HTTP or
/// HTTPS with a host, and plain HTTP only on a loopback host.
pub open spec fn web_origin_verdict(url: UrlPartsView) -> Result<(), Seq<char>> {
    if !(url.scheme == "http"@ || url.scheme == "https"@) || url.host is None {
        Err("must be an absolute HTTP or HTTPS origin"@)
    } else if url.scheme == "http"@ && !loopback_host(url.host) {
        Err("must use HTTPS unless the host is loopback"@)
    } else {
        Ok(())
    }
}

fn host_option_view(url: &UrlParts) -> (r: bool)
    ensures
        r == (url@.host is Some),
{
    url.host.is_some()
}

/// Checks that `url` can serve as a web origin.
pub fn validate_web_origin(url: &UrlParts) -> (r: Result<(), &'static str>)
    ensures
        match web_origin_verdict(url@) {
            Ok(()) => r is Ok,
            Err(reason) => r matches Err(s) && s@ == reason,
        },
{
    let http = same_chars(url.scheme.as_str(), "http");
    let https = same_chars(url.scheme.as_str(), "https");
    if !(http || https) || !host_option_view(url) {
        return Err("must be an absolute HTTP or HTTPS origin");
    }
    if http && !is_loopback_host(&url.host) {
        return Err("must use HTTPS unless the host is loopback");
    }
    Ok(())
}

/// Whether `url` uses HTTPS, or plain HTTP on a loopback host.
pub open spec fn https_or_loopback_http(url: UrlPartsView) -> bool {
    url.scheme == "https"@ || (url.scheme == "http"@ && loopback_host(url.host))
}

/// Decides whether `url` uses HTTPS, or plain HTTP on a loopback host.
pub fn is_https_or_loopback_http(url: &UrlParts) -> (r: bool)
    ensures
        r == https_or_loopback_http(url@),
{
    same_chars(url.scheme.as_str(), "https") || (same_chars(url.scheme.as_str(), "http")
        && is_loopback_host(&url.host))
}

/// Policy for admitting a verified identity that has no local user.
#[derive(Clone, Copy, Debug, PartialEq, Eq, Structural)]
pub enum AdmissionMode {
    /// Create a local user after successful identity verification.
    Open,
    /// Require an unexpired, operator-created admission code.
    InviteOnly,
}

impl Default for AdmissionMode {
    fn default() -> (r: Self)
        ensures
            r == AdmissionMode::InviteOnly,
    {
        AdmissionMode::InviteOnly
    }
}

/// An OpenID Connect client configuration as contracts speak of it.
pub struct OidcConfigView {
    pub issuer: Seq<char>,
    pub client_id: Seq<char>,
    pub client_secret: Option<Seq<char>>,
}

/// Validated OpenID Connect client configuration. It has no `Debug`, so the
/// client secret cannot be logged by accident.
#[derive(Clone, PartialEq, Eq)]
pub struct OidcConfig {
    issuer: String,
    client_id: String,
    client_secret: Option<String>,
}

impl View for OidcConfig {
    type V = OidcConfigView;

    closed spec fn view(&self) -> OidcConfigView {
        OidcConfigView {
            issuer: self.issuer@,
            client_id: self.client_id@,
            client_secret: opt_view(self.client_secret),
        }
    }
}

impl OidcConfig {
    /// Returns the exact configured issuer identifier.
    pub fn issuer(&self) -> (r: &str)
        ensures
            r@ == self@.issuer,
    {
        self.issuer.as_str()
    }

    /// Returns the configured client ID.
    pub fn client_id(&self) -> (r: &str)
        ensures
            r@ == self@.client_id,
    {
        self.client_id.as_str()
    }

    /// Returns the optional confidential-client secret.
    pub fn client_secret(&self) -> (r: Option<&str>)
        ensures
            match r {
                Some(s) => self@.client_secret == Some(s@),
                None => self@.client_secret is None,
            },
    {
        match &self.client_secret {
            Some(s) => Some(s.as_str()),
            None => None,
        }
    }
}

/// A configuration value that breaks the server's rules.
#[derive(Debug)]
pub enum SettingError {
    /// The configured database path is empty.
    EmptyDatabasePath,
    /// The public URL is syntactically invalid.
    InvalidPublicUrl { value: String, source: url::ParseError },
    /// The public URL violates the server's origin contract.
    UnsupportedPublicUrl(&'static str),
    /// Exactly one of issuer or client ID was configured.
    IncompleteOidcConfiguration,
    /// An OpenID Connect string setting is empty.
    EmptyOidcValue { variable: &'static str },
    /// The OpenID Connect issuer URL is invalid.
    InvalidOidcIssuer { value: String, source: url::ParseError },
    /// The OpenID Connect issuer URL is not HTTPS or loopback HTTP.
    UnsupportedOidcIssuer,
    /// The admission mode is not one of the supported values.
    InvalidAdmissionMode(String),
}

/// The verdict on a parsed public URL: no user information; an origin
/// without path, query or fragment; and a web origin.
pub open spec fn public_url_verdict(url: UrlPartsView) -> Result<(), Seq<char>> {
    if url.username.len() != 0 || url.password is Some {
        Err("cannot contain user information"@)
    } else if url.path != "/"@ || url.query is Some || url.fragment is Some {
        Err("must be an origin without a path, query, or fragment"@)
    } else {
        web_origin_verdict(url)
    }
}

/// Reads the public URL setting, which defaults to the loopback address.
pub fn parse_public_url(value: Option<String>) -> (r: Result<UrlParts, SettingError>)
    ensures
        ({
            let text = match value {
                Some(v) => v@,
                None => DEFAULT_PUBLIC_URL@,
            };
            match url_parse(text) {
                None => r matches Err(SettingError::InvalidPublicUrl { value, .. }) && value@
                    == text,
                Some(url) => match public_url_verdict(url) {
                    Ok(()) => r matches Ok(p) && p@ == url,
                    Err(reason) => r matches Err(SettingError::UnsupportedPublicUrl(s)) && s@
                        == reason,
                },
            }
        }),
{
    let value = match value {
        Some(v) => v,
        None => DEFAULT_PUBLIC_URL.to_owned(),
    };
    let url = match parse_url(value.as_str()) {
        Ok(url) => url,
        Err(source) => return Err(SettingError::InvalidPublicUrl { value, source }),
    };
    if !url.username.as_str().is_empty() || url.password.is_some() {
        return Err(SettingError::UnsupportedPublicUrl("cannot contain user information"));
    }
    if !same_chars(url.path.as_str(), "/") || url.query.is_some() || url.fragment.is_some() {
        return Err(
            SettingError::UnsupportedPublicUrl(
                "must be an origin without a path, query, or fragment",
            ),
        );
    }
    match validate_web_origin(&url) {
        Ok(()) => Ok(url),
        Err(reason) => Err(SettingError::UnsupportedPublicUrl(reason)),
    }
}

/// Whether a parsed issuer URL is acceptable: no user information, a host,
/// no query or fragment, and HTTPS or loopback HTTP.
pub open spec fn issuer_url_accepted(url: UrlPartsView) -> bool {
    &&& url.username.len() == 0
    &&& url.password is None
    &&& url.host is Some
    &&& url.query is None
    &&& url.fragment is None
    &&& https_or_loopback_http(url)
}

/// What the OpenID Connect settings amount to: `None` when none is set;
/// issuer and client ID must come together, and none of the three may be
/// empty; the issuer must parse as an acceptable URL and is kept exactly as
/// written.
pub open spec fn oidc_verdict(
    issuer: Option<Seq<char>>,
    client_id: Option<Seq<char>>,
    client_secret: Option<Seq<char>>,
) -> Option<Result<(), Seq<char>>> {
    match (issuer, client_id) {
        (Some(i), Some(c)) => if i.len() == 0 {
            Some(Err(OIDC_ISSUER_ENV@))
        } else if c.len() == 0 {
            Some(Err(OIDC_CLIENT_ID_ENV@))
        } else if client_secret matches Some(s) && s.len() == 0 {
            Some(Err(OIDC_CLIENT_SECRET_ENV@))
        } else {
            Some(Ok(()))
        },
        _ => None,
    }
}

/// Reads the OpenID Connect settings.
pub fn parse_oidc(issuer: Option<String>, client_id: Option<String>, client_secret: Option<String>) -> (r:
    Result<Option<OidcConfig>, SettingError>)
    ensures
        ({
            let i = opt_view(issuer);
            let c = opt_view(client_id);
            let s = opt_view(client_secret);
            match oidc_verdict(i, c, s) {
                None => if i is None && c is None && s is None {
                    r matches Ok(None)
                } else {
                    r matches Err(SettingError::IncompleteOidcConfiguration)
                },
                Some(Err(variable)) => r matches Err(SettingError::EmptyOidcValue { variable: v })
                    && v@ == variable,
                Some(Ok(())) => match url_parse(i.unwrap()) {
                    None => r matches Err(SettingError::InvalidOidcIssuer { value, .. }) && value@
                        == i.unwrap(),
                    Some(url) => if issuer_url_accepted(url) {
                        r matches Ok(Some(config)) && config@ == (OidcConfigView {
                            issuer: i.unwrap(),
                            client_id: c.unwrap(),
                            client_secret: s,
                        })
                    } else {
                        r matches Err(SettingError::UnsupportedOidcIssuer)
                    },
                },
            }
        }),
{
    let (issuer, client_id) = match (issuer, client_id) {
        (Some(i), Some(c)) => (i, c),
        (None, None) => {
            if client_secret.is_none() {
                return Ok(None);
            }
            return Err(SettingError::IncompleteOidcConfiguration);
        },
        _ => return Err(SettingError::IncompleteOidcConfiguration),
    };
    if issuer.as_str().is_empty() {
        return Err(SettingError::EmptyOidcValue { variable: OIDC_ISSUER_ENV });
    }
    if client_id.as_str().is_empty() {
        return Err(SettingError::EmptyOidcValue { variable: OIDC_CLIENT_ID_ENV });
    }
    let secret_empty = match &client_secret {
        Some(s) => s.as_str().is_empty(),
        None => false,
    };
    if secret_empty {
        return Err(SettingError::EmptyOidcValue { variable: OIDC_CLIENT_SECRET_ENV });
    }
    let url = match parse_url(issuer.as_str()) {
        Ok(url) => url,
        Err(source) => return Err(SettingError::InvalidOidcIssuer { value: issuer.clone(), source }),
    };
    if !url.username.as_str().is_empty() || url.password.is_some() || url.host.is_none()
        || url.query.is_some() || url.fragment.is_some() || !is_https_or_loopback_http(&url) {
        return Err(SettingError::UnsupportedOidcIssuer);
    }
    Ok(Some(OidcConfig { issuer, client_id, client_secret }))
}

/// Reads the admission mode setting: `open`, `invite_only`, or unset for
/// the default, invite only.
pub fn parse_admission_mode(value: Option<&str>) -> (r: Result<AdmissionMode, SettingError>)
    ensures
        match value {
            None => r matches Ok(AdmissionMode::InviteOnly),
            Some(v) => if v@ == "open"@ {
                r matches Ok(AdmissionMode::Open)
            } else if v@ == "invite_only"@ {
                r matches Ok(AdmissionMode::InviteOnly)
            } else {
                r matches Err(SettingError::InvalidAdmissionMode(s)) && s@ == v@
            },
        },
{
    match value {
        None => Ok(AdmissionMode::default()),
        Some(v) => {
            if same_chars(v, "open") {
                Ok(AdmissionMode::Open)
            } else if same_chars(v, "invite_only") {
                Ok(AdmissionMode::InviteOnly)
            } else {
                Err(SettingError::InvalidAdmissionMode(v.to_owned()))
            }
        },
    }
}

/// Checks the database path setting: it may not be empty.
pub fn check_database_path(path: &str) -> (r: Result<(), SettingError>)
    ensures
        r is Ok <==> path@.len() > 0,
        r is Err ==> r matches Err(SettingError::EmptyDatabasePath),
{
    if path.is_empty() {
        Err(SettingError::EmptyDatabasePath)
    } else {
        Ok(())
    }
}

} // verus!
