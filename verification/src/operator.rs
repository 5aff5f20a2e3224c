use vstd::prelude::*;

use crate::auth::{AuthError, IssuedAdmissionCode};
use crate::decimal::{decimal_of, format_u64, u64_from_decimal, parse_u64};
use crate::text::same_chars;
use crate::token::base64_url_decoding;

verus! {

/// Maximum lifetime accepted for an operator-created admission code, in
/// hours (one year).
pub const MAX_ADMISSION_CODE_LIFETIME_HOURS: u64 = 8_760;

/// Checks a requested admission-code lifetime and converts it to
/// milliseconds: it must be between 1 hour and one year.
pub fn admission_code_lifetime_ms(valid_for_hours: u64) -> (r: Result<u64, CreateAdmissionCodeError>)
    ensures
        1 <= valid_for_hours <= MAX_ADMISSION_CODE_LIFETIME_HOURS ==> (r matches Ok(ms) && ms
            == valid_for_hours * 3_600_000),
        !(1 <= valid_for_hours <= MAX_ADMISSION_CODE_LIFETIME_HOURS) ==> r matches Err(
            CreateAdmissionCodeError::InvalidLifetime,
        ),
{
    if valid_for_hours < 1 || valid_for_hours > MAX_ADMISSION_CODE_LIFETIME_HOURS {
        return Err(CreateAdmissionCodeError::InvalidLifetime);
    }
    Ok(valid_for_hours * 3_600_000)
}

/// A newly created admission code and its absolute expiration timestamp.
pub struct CreatedAdmissionCode {
    token: String,
    expires_at_ms: i64,
}

impl CreatedAdmissionCode {
    /// Takes the text of an issued code and its expiry.
    pub fn from_issued(issued: &IssuedAdmissionCode) -> (r: Self)
        ensures
            base64_url_decoding(r.token_text()) == Some(issued.secret()),
            r.expiry() == issued.expiry(),
    {
        CreatedAdmissionCode { token: issued.token(), expires_at_ms: issued.expires_at_ms() }
    }

    /// The bearer token's text.
    pub closed spec fn token_text(&self) -> Seq<char> {
        self.token@
    }

    /// The expiry in Unix milliseconds.
    pub closed spec fn expiry(&self) -> i64 {
        self.expires_at_ms
    }

    /// Exposes the bearer token that must be distributed to prospective
    /// users.
    pub fn token(&self) -> (r: &str)
        ensures
            r@ == self.token_text(),
    {
        self.token.as_str()
    }

    /// Returns the expiration instant as milliseconds since the Unix epoch.
    pub fn expires_at_ms(&self) -> (r: i64)
        ensures
            r == self.expiry(),
    {
        self.expires_at_ms
    }
}

#[verifier::external_type_specification]
#[verifier::external_body]
pub struct ExMigrateError(sqlx::migrate::MigrateError);

/// An error encountered while opening and preparing a SQLite store.
#[derive(Debug)]
pub enum OpenError {
    /// The database or connection pool could not be opened.
    Database(sqlx::Error),
    /// Embedded migrations could not be applied.
    Migration(sqlx::migrate::MigrateError),
}

/// Describes why an operator admission code could not be created.
#[derive(Debug)]
pub enum CreateAdmissionCodeError {
    /// The lifetime is zero or exceeds the supported maximum.
    InvalidLifetime,
    /// SQLite could not be opened or migrated.
    Database(OpenError),
    /// Secure random generation failed.
    Entropy(getrandom::Error),
    /// SQLite failed while creating the code.
    Store(sqlx::Error),
    /// The current time or requested expiration cannot be represented.
    TimeUnavailable,
    /// An unexpected authentication-store invariant failed.
    InvalidStoredData,
}

impl CreateAdmissionCodeError {
    /// Classifies an authentication-store failure: entropy, store and time
    /// failures keep their kind; everything else is a broken invariant.
    pub fn from_auth(error: AuthError) -> (r: Self)
        ensures
            error is Entropy ==> r is Entropy,
            error is StoreUnavailable ==> r is Store,
            error is TimeUnavailable ==> r is TimeUnavailable,
            !(error is Entropy || error is StoreUnavailable || error is TimeUnavailable) ==> r is InvalidStoredData,
    {
        match error {
            AuthError::Entropy(e) => CreateAdmissionCodeError::Entropy(e),
            AuthError::StoreUnavailable(e) => CreateAdmissionCodeError::Store(e),
            AuthError::TimeUnavailable => CreateAdmissionCodeError::TimeUnavailable,
            _ => CreateAdmissionCodeError::InvalidStoredData,
        }
    }

    /// Returns a text description of the error.
    pub fn message(&self) -> (r: String)
        ensures
            self is InvalidLifetime ==> r@ == "admission code lifetime must be between 1 and "@
                + decimal_of(MAX_ADMISSION_CODE_LIFETIME_HOURS as nat) + " hours"@,
            self is Database ==> r@ == "failed to prepare SQLite"@,
            self is Entropy ==> r@ == "secure random generation failed"@,
            self is Store ==> r@ == "failed to store admission code"@,
            self is TimeUnavailable ==> r@ == "admission code expiration is invalid"@,
            self is InvalidStoredData ==> r@ == "admission code storage invariant failed"@,
    {
        match self {
            CreateAdmissionCodeError::InvalidLifetime => String::from_str(
                "admission code lifetime must be between 1 and ",
            ).concat(format_u64(MAX_ADMISSION_CODE_LIFETIME_HOURS).as_str()).concat(" hours"),
            CreateAdmissionCodeError::Database(_) => String::from_str("failed to prepare SQLite"),
            CreateAdmissionCodeError::Entropy(_) => String::from_str(
                "secure random generation failed",
            ),
            CreateAdmissionCodeError::Store(_) => String::from_str("failed to store admission code"),
            CreateAdmissionCodeError::TimeUnavailable => String::from_str(
                "admission code expiration is invalid",
            ),
            CreateAdmissionCodeError::InvalidStoredData => String::from_str(
                "admission code storage invariant failed",
            ),
        }
    }
}

/// What the server was asked to do.
#[derive(Clone, Copy, Debug, PartialEq, Eq, Structural)]
pub enum Command {
    /// Serve the chat API.
    Serve,
    /// Create an admission code valid for this many hours.
    CreateAdmissionCode { valid_for_hours: u64 },
}

/// The error returned for command-line arguments that name no command.
#[derive(Clone, Copy, Debug, PartialEq, Eq, Structural)]
pub struct CommandError;

impl CommandError {
    /// Returns the usage text.
    pub fn message(&self) -> (r: String)
        ensures
            r@ == "usage: chat-server [admission-code create --valid-for-hours <1-"@ + decimal_of(
                MAX_ADMISSION_CODE_LIFETIME_HOURS as nat,
            ) + ">]"@,
    {
        String::from_str("usage: chat-server [admission-code create --valid-for-hours <1-").concat(
            format_u64(MAX_ADMISSION_CODE_LIFETIME_HOURS).as_str(),
        ).concat(">]")
    }
}

/// What the command line asks for: nothing means serving; `admission-code
/// create --valid-for-hours N` with `N` a decimal from 1 to one year of
/// hours creates an admission code; anything else is an error.
pub open spec fn command_of(args: Seq<Seq<char>>) -> Result<Command, CommandError> {
    if args.len() == 0 {
        Ok(Command::Serve)
    } else if args.len() == 4 && args[0] == "admission-code"@ && args[1] == "create"@ && args[2]
        == "--valid-for-hours"@ {
        match u64_from_decimal(args[3]) {
            Some(h) => if 1 <= h <= MAX_ADMISSION_CODE_LIFETIME_HOURS {
                Ok(Command::CreateAdmissionCode { valid_for_hours: h })
            } else {
                Err(CommandError)
            },
            None => Err(CommandError),
        }
    } else {
        Err(CommandError)
    }
}

/// Reads the command line (without the program name).
pub fn parse_command(args: &Vec<String>) -> (r: Result<Command, CommandError>)
    ensures
        r == command_of(args@.map_values(|a: String| a@)),
{
    let ghost view = args@.map_values(|a: String| a@);
    if args.len() == 0 {
        return Ok(Command::Serve);
    }
    if args.len() != 4 {
        return Err(CommandError);
    }
    assert(view[0] == args@[0]@ && view[1] == args@[1]@ && view[2] == args@[2]@ && view[3]
        == args@[3]@);
    if !same_chars(args[0].as_str(), "admission-code") || !same_chars(args[1].as_str(), "create")
        || !same_chars(args[2].as_str(), "--valid-for-hours") {
        return Err(CommandError);
    }
    match parse_u64(args[3].as_str()) {
        Some(h) => {
            if h < 1 || h > MAX_ADMISSION_CODE_LIFETIME_HOURS {
                Err(CommandError)
            } else {
                Ok(Command::CreateAdmissionCode { valid_for_hours: h })
            }
        },
        None => Err(CommandError),
    }
}

} // verus!
