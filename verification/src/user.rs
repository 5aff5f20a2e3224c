use std::time::SystemTime;

use vstd::prelude::*;

use crate::id::UserId;
use crate::text::{lemma_trim_idempotent, chars_of, contains_control, has_control, string_of, trim, trim_chars};

verus! {

/// Maximum number of Unicode scalar values accepted in a display name.
pub const MAX_DISPLAY_NAME_CHARS: usize = 64;

/// Describes why a display name is invalid.
#[derive(Clone, Copy, Debug, PartialEq, Eq, Structural)]
pub enum DisplayNameError {
    /// The name contains no non-whitespace characters.
    Empty,
    /// The name contains a control character.
    ContainsControlCharacter,
    /// The name exceeds the configured character limit.
    TooLong {
        /// Maximum accepted character count.
        max_chars: usize,
        /// Character count of the rejected name.
        actual_chars: usize,
    },
}

/// What validating `value` as a display name yields: the trimmed text, or the
/// first rule it breaks.
pub open spec fn display_name_check(value: Seq<char>) -> Result<Seq<char>, DisplayNameError> {
    let t = trim(value);
    if t.len() == 0 {
        Err(DisplayNameError::Empty)
    } else if has_control(t) {
        Err(DisplayNameError::ContainsControlCharacter)
    } else if t.len() > MAX_DISPLAY_NAME_CHARS {
        Err(DisplayNameError::TooLong { max_chars: MAX_DISPLAY_NAME_CHARS, actual_chars: t.len() as usize })
    } else {
        Ok(t)
    }
}

/// A display name as validated is itself a valid display name: what the
/// store writes is read back unchanged.
pub proof fn lemma_display_name_check_is_stable(value: Seq<char>)
    ensures
        display_name_check(value) matches Ok(name) ==> display_name_check(name) == Ok::<
            Seq<char>,
            DisplayNameError,
        >(name),
{
    lemma_trim_idempotent(value);
}

/// A validated user-facing name.
#[derive(Debug, PartialEq, Eq)]
pub struct DisplayName {
    value: String,
}

impl View for DisplayName {
    type V = Seq<char>;

    closed spec fn view(&self) -> Seq<char> {
        self.value@
    }
}

impl Clone for DisplayName {
    fn clone(&self) -> (r: Self)
        ensures
            r == *self,
    {
        DisplayName { value: self.value.clone() }
    }
}

impl DisplayName {
    /// Validates `value`: trims surrounding white space, then rejects an empty
    /// name, a control character, or more than `MAX_DISPLAY_NAME_CHARS`
    /// characters.
    pub fn parse(value: &str) -> (r: Result<Self, DisplayNameError>)
        ensures
            r is Ok <==> display_name_check(value@) is Ok,
            r matches Ok(name) ==> display_name_check(value@) == Ok::<Seq<char>, DisplayNameError>(
                name@,
            ),
            r matches Err(e) ==> display_name_check(value@) == Err::<Seq<char>, DisplayNameError>(
                e,
            ),
    {
        let chars = chars_of(value);
        let trimmed = trim_chars(&chars);
        if trimmed.len() == 0 {
            return Err(DisplayNameError::Empty);
        }
        if contains_control(&trimmed) {
            return Err(DisplayNameError::ContainsControlCharacter);
        }
        let actual_chars = trimmed.len();
        if actual_chars > MAX_DISPLAY_NAME_CHARS {
            return Err(DisplayNameError::TooLong { max_chars: MAX_DISPLAY_NAME_CHARS, actual_chars });
        }
        Ok(DisplayName { value: string_of(&trimmed) })
    }

    /// Returns the display name as a string slice.
    pub fn as_str(&self) -> (r: &str)
        ensures
            r@ == self@,
    {
        self.value.as_str()
    }

    /// Consumes the display name and returns its string.
    pub fn into_inner(self) -> (r: String)
        ensures
            r@ == self@,
    {
        self.value
    }

    /// Whether two names hold the same text.
    pub fn same_text(&self, other: &DisplayName) -> (r: bool)
        ensures
            r == (self@ == other@),
    {
        self.value == other.value
    }
}

impl AsRef<str> for DisplayName {
    fn as_ref(&self) -> (r: &str)
        ensures
            r@ == self@,
    {
        self.value.as_str()
    }
}

impl TryFrom<&str> for DisplayName {
    type Error = DisplayNameError;

    /// Same as [`DisplayName::parse`].
    fn try_from(value: &str) -> (r: Result<Self, Self::Error>)
        ensures
            r is Ok <==> display_name_check(value@) is Ok,
            r matches Ok(name) ==> display_name_check(value@) == Ok::<Seq<char>, DisplayNameError>(
                name@,
            ),
            r matches Err(e) ==> display_name_check(value@) == Err::<Seq<char>, DisplayNameError>(
                e,
            ),
    {
        DisplayName::parse(value)
    }
}

impl TryFrom<String> for DisplayName {
    type Error = DisplayNameError;

    /// Same as [`DisplayName::parse`] on the string's text.
    fn try_from(value: String) -> (r: Result<Self, Self::Error>)
        ensures
            r is Ok <==> display_name_check(value@) is Ok,
            r matches Ok(name) ==> display_name_check(value@) == Ok::<Seq<char>, DisplayNameError>(
                name@,
            ),
            r matches Err(e) ==> display_name_check(value@) == Err::<Seq<char>, DisplayNameError>(
                e,
            ),
    {
        DisplayName::parse(value.as_str())
    }
}

/// No separate spec function of the conversion is claimed: the `ensures` of
/// each `try_from` above, the same as those of `DisplayName::parse`, state the result.
impl vstd::std_specs::convert::TryFromSpecImpl<&str> for DisplayName {
    open spec fn obeys_try_from_spec() -> bool {
        false
    }

    open spec fn try_from_spec(v: &str) -> Result<Self, DisplayNameError> {
        arbitrary()
    }
}

impl vstd::std_specs::convert::TryFromSpecImpl<String> for DisplayName {
    open spec fn obeys_try_from_spec() -> bool {
        false
    }

    open spec fn try_from_spec(v: String) -> Result<Self, DisplayNameError> {
        arbitrary()
    }
}

/// The parts of a user that contracts speak of.
pub struct UserView {
    pub id: i64,
    pub display_name: Seq<char>,
    pub created_at: SystemTime,
}

/// A user known to the chat application.
#[derive(Debug, PartialEq, Eq)]
pub struct User {
    id: UserId,
    display_name: DisplayName,
    created_at: SystemTime,
}

impl View for User {
    type V = UserView;

    closed spec fn view(&self) -> UserView {
        UserView { id: self.id@, display_name: self.display_name@, created_at: self.created_at }
    }
}

impl Clone for User {
    fn clone(&self) -> (r: Self)
        ensures
            r == *self,
    {
        User { id: self.id, display_name: self.display_name.clone(), created_at: self.created_at }
    }
}

impl User {
    /// Creates a user from values assigned by a store implementation.
    pub fn new(id: UserId, display_name: DisplayName, created_at: SystemTime) -> (r: Self)
        ensures
            r@ == (UserView { id: id@, display_name: display_name@, created_at }),
    {
        User { id, display_name, created_at }
    }

    /// Returns the user ID.
    pub fn id(&self) -> (r: UserId)
        ensures
            r@ == self@.id,
    {
        self.id
    }

    /// Returns the display name.
    pub fn display_name(&self) -> (r: &DisplayName)
        ensures
            r@ == self@.display_name,
    {
        &self.display_name
    }

    /// Returns when the user was created.
    pub fn created_at(&self) -> (r: &SystemTime)
        ensures
            *r == self@.created_at,
    {
        &self.created_at
    }
}

/// A validated user awaiting store-assigned metadata.
#[derive(Debug, PartialEq, Eq)]
pub struct NewUser {
    display_name: DisplayName,
}

impl View for NewUser {
    type V = Seq<char>;

    closed spec fn view(&self) -> Seq<char> {
        self.display_name@
    }
}

impl Clone for NewUser {
    fn clone(&self) -> (r: Self)
        ensures
            r == *self,
    {
        NewUser { display_name: self.display_name.clone() }
    }
}

impl NewUser {
    pub(crate) fn new(display_name: DisplayName) -> (r: Self)
        ensures
            r@ == display_name@,
    {
        NewUser { display_name }
    }

    /// Returns the requested display name.
    pub fn display_name(&self) -> (r: &DisplayName)
        ensures
            r@ == self@,
    {
        &self.display_name
    }
}

} // verus!
