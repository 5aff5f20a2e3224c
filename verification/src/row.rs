use std::time::SystemTime;

use vstd::prelude::*;

use crate::conversation::{conversation_title_check, Conversation, ConversationTitle, ConversationView};
use crate::get_conversation::{ConversationDetails, ConversationEntryView};
use crate::id::{ConversationId, MessageId, UserId};
use crate::list_conversations::ConversationSummary;
use crate::list_members::{ConversationMember, ConversationMemberView};
use crate::membership::{Membership, MembershipRole, MembershipView};
use crate::message::{message_body_check, Message, MessageBody, MessageView};
use crate::text::same_chars;
use crate::time::{checked_time_after_epoch, millis_since_unix_epoch};
use crate::user::{display_name_check, DisplayName, User, UserView};

verus! {

/// The text that stores the owner role.
pub const OWNER_ROLE: &'static str = "owner";

/// The text that stores the member role.
pub const MEMBER_ROLE: &'static str = "member";

/// A persisted value breaks the rules of the domain type it stands for.
#[derive(Clone, Copy, Debug, PartialEq, Eq, Structural)]
pub struct InvalidStoredData;

/// The role a stored role text names, if any.
pub open spec fn role_named(text: Seq<char>) -> Option<MembershipRole> {
    if text == "owner"@ {
        Some(MembershipRole::Owner)
    } else if text == "member"@ {
        Some(MembershipRole::Member)
    } else {
        None
    }
}

/// The text a role is stored as.
pub open spec fn role_text(role: MembershipRole) -> Seq<char> {
    match role {
        MembershipRole::Owner => "owner"@,
        MembershipRole::Member => "member"@,
    }
}

/// Reads a stored role text.
pub fn role_from_db(value: &str) -> (r: Result<MembershipRole, InvalidStoredData>)
    ensures
        r is Ok <==> role_named(value@) is Some,
        r matches Ok(role) ==> role_named(value@) == Some(role),
{
    proof {
        reveal_strlit("owner");
        reveal_strlit("member");
    }
    if same_chars(value, OWNER_ROLE) {
        Ok(MembershipRole::Owner)
    } else if same_chars(value, MEMBER_ROLE) {
        Ok(MembershipRole::Member)
    } else {
        Err(InvalidStoredData)
    }
}

/// Returns the text a role is stored as.
pub fn role_to_db(role: MembershipRole) -> (r: &'static str)
    ensures
        r@ == role_text(role),
        role_named(r@) == Some(role),
{
    proof {
        reveal_strlit("owner");
        reveal_strlit("member");
    }
    let r = match role {
        MembershipRole::Owner => "owner",
        MembershipRole::Member => "member",
    };
    assert(r@ == role_text(role));
    assert(role_named(role_text(role)) == Some(role));
    r
}

/// Reads a stored timestamp in milliseconds since the Unix epoch. A negative
/// value is rejected; a non-negative one yields the instant that lies that
/// many milliseconds after the epoch, or is rejected when the platform cannot
/// represent that instant.
pub fn system_time_from_millis(value: i64) -> (r: Result<SystemTime, InvalidStoredData>)
    ensures
        value < 0 ==> r is Err,
        r matches Ok(t) ==> value >= 0 && millis_since_unix_epoch(t) == Some(value as int),
{
    if value < 0 {
        return Err(InvalidStoredData);
    }
    match checked_time_after_epoch(value as u64) {
        Some(t) => Ok(t),
        None => Err(InvalidStoredData),
    }
}

/// A stored user row.
pub struct UserRow {
    pub id: i64,
    pub display_name: String,
    pub created_at_ms: i64,
}

/// The stored user values other than the timestamp fit the domain rules: a
/// positive ID and a display name that is already valid as stored.
pub open spec fn user_parts_fit(id: i64, display_name: Seq<char>) -> bool {
    &&& id > 0
    &&& display_name_check(display_name) == Ok::<Seq<char>, crate::user::DisplayNameError>(
        display_name,
    )
}

/// A stored user row fits the domain rules: its values fit and its
/// timestamp is not negative.
pub open spec fn user_row_fits(id: i64, display_name: Seq<char>, created_at_ms: i64) -> bool {
    user_parts_fit(id, display_name) && created_at_ms >= 0
}

/// The user a fitting row reads as, when its timestamp is representable.
pub open spec fn user_read_as(u: UserView, id: i64, display_name: Seq<char>, created_at_ms: i64) -> bool {
    &&& u.id == id
    &&& u.display_name == display_name
    &&& millis_since_unix_epoch(u.created_at) == Some(created_at_ms as int)
}

impl UserRow {
    /// Converts the row into a user, rejecting values the domain forbids.
    pub fn into_user(self) -> (r: Result<User, InvalidStoredData>)
        ensures
            !user_row_fits(self.id, self.display_name@, self.created_at_ms) ==> r is Err,
            r matches Ok(u) ==> user_row_fits(self.id, self.display_name@, self.created_at_ms)
                && user_read_as(u@, self.id, self.display_name@, self.created_at_ms),
    {
        let created_at = system_time_from_millis(self.created_at_ms)?;
        user_from_stored(self.id, self.display_name.as_str(), created_at)
    }
}

/// Builds a user from stored values whose timestamp was already read as
/// `created_at`: succeeds exactly when the other values fit.
pub fn user_from_stored(id: i64, display_name: &str, created_at: SystemTime) -> (r: Result<
    User,
    InvalidStoredData,
>)
    ensures
        r is Ok <==> user_parts_fit(id, display_name@),
        r matches Ok(u) ==> u@ == (UserView { id, display_name: display_name@, created_at }),
{
    let id = match UserId::new(id) {
        Ok(id) => id,
        Err(_) => return Err(InvalidStoredData),
    };
    let name = match DisplayName::parse(display_name) {
        Ok(name) => name,
        Err(_) => return Err(InvalidStoredData),
    };
    if !name.as_str().to_owned().eq(&display_name.to_owned()) {
        return Err(InvalidStoredData);
    }
    Ok(User::new(id, name, created_at))
}

/// Builds a user from stored values, rejecting values the domain forbids.
pub fn read_user(id: i64, display_name: &str, created_at_ms: i64) -> (r: Result<User, InvalidStoredData>)
    ensures
        !user_row_fits(id, display_name@, created_at_ms) ==> r is Err,
        r matches Ok(u) ==> user_row_fits(id, display_name@, created_at_ms) && user_read_as(
            u@,
            id,
            display_name@,
            created_at_ms,
        ),
{
    let created_at = system_time_from_millis(created_at_ms)?;
    user_from_stored(id, display_name, created_at)
}

/// A stored conversation row.
pub struct ConversationRow {
    pub id: i64,
    pub title: String,
    pub created_at_ms: i64,
}

/// The stored conversation values other than the timestamp fit the domain
/// rules: a positive ID and a title already valid as stored.
pub open spec fn conversation_parts_fit(id: i64, title: Seq<char>) -> bool {
    &&& id > 0
    &&& conversation_title_check(title) == Ok::<Seq<char>, crate::conversation::ConversationTitleError>(
        title,
    )
}

/// A stored conversation row fits the domain rules.
pub open spec fn conversation_row_fits(id: i64, title: Seq<char>, created_at_ms: i64) -> bool {
    conversation_parts_fit(id, title) && created_at_ms >= 0
}

/// The conversation a fitting row reads as.
pub open spec fn conversation_read_as(c: ConversationView, id: i64, title: Seq<char>, created_at_ms: i64) -> bool {
    &&& c.id == id
    &&& c.title == title
    &&& millis_since_unix_epoch(c.created_at) == Some(created_at_ms as int)
}

/// Builds a conversation from stored values whose timestamp was already read
/// as `created_at`: succeeds exactly when the other values fit.
pub fn conversation_from_stored(id: i64, title: &str, created_at: SystemTime) -> (r: Result<
    Conversation,
    InvalidStoredData,
>)
    ensures
        r is Ok <==> conversation_parts_fit(id, title@),
        r matches Ok(c) ==> c@ == (ConversationView { id, title: title@, created_at }),
{
    let id = match ConversationId::new(id) {
        Ok(id) => id,
        Err(_) => return Err(InvalidStoredData),
    };
    let parsed = match ConversationTitle::parse(title) {
        Ok(t) => t,
        Err(_) => return Err(InvalidStoredData),
    };
    if !parsed.as_str().to_owned().eq(&title.to_owned()) {
        return Err(InvalidStoredData);
    }
    Ok(Conversation::new(id, parsed, created_at))
}

/// Builds a conversation from stored values, rejecting values the domain
/// forbids.
pub fn read_conversation(id: i64, title: &str, created_at_ms: i64) -> (r: Result<
    Conversation,
    InvalidStoredData,
>)
    ensures
        !conversation_row_fits(id, title@, created_at_ms) ==> r is Err,
        r matches Ok(c) ==> conversation_row_fits(id, title@, created_at_ms)
            && conversation_read_as(c@, id, title@, created_at_ms),
{
    let created_at = system_time_from_millis(created_at_ms)?;
    conversation_from_stored(id, title, created_at)
}

impl ConversationRow {
    /// Converts the row into a conversation.
    pub fn into_conversation(self) -> (r: Result<Conversation, InvalidStoredData>)
        ensures
            !conversation_row_fits(self.id, self.title@, self.created_at_ms) ==> r is Err,
            r matches Ok(c) ==> conversation_row_fits(self.id, self.title@, self.created_at_ms)
                && conversation_read_as(c@, self.id, self.title@, self.created_at_ms),
    {
        let created_at = system_time_from_millis(self.created_at_ms)?;
        conversation_from_stored(self.id, self.title.as_str(), created_at)
    }
}

/// A stored conversation row joined with the reader's role.
pub struct ConversationWithRoleRow {
    pub id: i64,
    pub title: String,
    pub created_at_ms: i64,
    pub role: String,
}

/// The entry (conversation and role) that a row's values other than the
/// timestamp read as, with the timestamp already read as `created_at`.
pub open spec fn entry_of(row: ConversationWithRoleRow, created_at: SystemTime) -> ConversationEntryView {
    ConversationEntryView {
        conversation: ConversationView { id: row.id, title: row.title@, created_at },
        role: role_named(row.role@)->0,
    }
}

impl ConversationWithRoleRow {
    /// The row's values other than the timestamp fit: a known role and a
    /// fitting conversation.
    pub open spec fn parts_fit(&self) -> bool {
        role_named(self.role@) is Some && conversation_parts_fit(self.id, self.title@)
    }

    /// Converts the row into conversation details, its timestamp already
    /// read as `created_at`: succeeds exactly when the other values fit.
    pub fn details_at(&self, created_at: SystemTime) -> (r: Result<ConversationDetails, InvalidStoredData>)
        ensures
            r is Ok <==> self.parts_fit(),
            r matches Ok(d) ==> d@ == entry_of(*self, created_at),
    {
        let role = role_from_db(self.role.as_str())?;
        let conversation = conversation_from_stored(self.id, self.title.as_str(), created_at)?;
        Ok(ConversationDetails::new(conversation, role))
    }

    /// Converts the row into a conversation summary, its timestamp already
    /// read as `created_at`: succeeds exactly when the other values fit.
    pub fn summary_at(&self, created_at: SystemTime) -> (r: Result<ConversationSummary, InvalidStoredData>)
        ensures
            r is Ok <==> self.parts_fit(),
            r matches Ok(s) ==> s@ == entry_of(*self, created_at),
    {
        let role = role_from_db(self.role.as_str())?;
        let conversation = conversation_from_stored(self.id, self.title.as_str(), created_at)?;
        Ok(ConversationSummary::new(conversation, role))
    }

    /// Converts the row into conversation details.
    pub fn into_details(self) -> (r: Result<ConversationDetails, InvalidStoredData>)
        ensures
            !conversation_row_fits(self.id, self.title@, self.created_at_ms) ==> r is Err,
            role_named(self.role@) is None ==> r is Err,
            r matches Ok(d) ==> conversation_row_fits(self.id, self.title@, self.created_at_ms)
                && conversation_read_as(d@.conversation, self.id, self.title@, self.created_at_ms)
                && role_named(self.role@) == Some(d@.role),
    {
        let created_at = system_time_from_millis(self.created_at_ms)?;
        self.details_at(created_at)
    }

    /// Converts the row into a conversation summary.
    pub fn into_summary(self) -> (r: Result<ConversationSummary, InvalidStoredData>)
        ensures
            !conversation_row_fits(self.id, self.title@, self.created_at_ms) ==> r is Err,
            role_named(self.role@) is None ==> r is Err,
            r matches Ok(s) ==> conversation_row_fits(self.id, self.title@, self.created_at_ms)
                && conversation_read_as(s@.conversation, self.id, self.title@, self.created_at_ms)
                && role_named(self.role@) == Some(s@.role),
    {
        let created_at = system_time_from_millis(self.created_at_ms)?;
        self.summary_at(created_at)
    }
}

/// A stored membership row.
pub struct MembershipRow {
    pub conversation_id: i64,
    pub user_id: i64,
    pub role: String,
    pub joined_at_ms: i64,
}

/// The stored membership values other than the timestamp fit the domain
/// rules: positive IDs and a known role.
pub open spec fn membership_parts_fit(conversation_id: i64, user_id: i64, role: Seq<char>) -> bool {
    &&& conversation_id > 0
    &&& user_id > 0
    &&& role_named(role) is Some
}

/// A stored membership row fits the domain rules.
pub open spec fn membership_row_fits(conversation_id: i64, user_id: i64, role: Seq<char>, joined_at_ms: i64) -> bool {
    membership_parts_fit(conversation_id, user_id, role) && joined_at_ms >= 0
}

/// The membership a fitting row reads as.
pub open spec fn membership_read_as(
    m: MembershipView,
    conversation_id: i64,
    user_id: i64,
    role: Seq<char>,
    joined_at_ms: i64,
) -> bool {
    &&& m.conversation_id == conversation_id
    &&& m.user_id == user_id
    &&& role_named(role) == Some(m.role)
    &&& millis_since_unix_epoch(m.joined_at) == Some(joined_at_ms as int)
}

/// Builds a membership from stored values whose timestamp was already read
/// as `joined_at`: succeeds exactly when the other values fit.
pub fn membership_from_stored(conversation_id: i64, user_id: i64, role: &str, joined_at: SystemTime) -> (r:
    Result<Membership, InvalidStoredData>)
    ensures
        r is Ok <==> membership_parts_fit(conversation_id, user_id, role@),
        r matches Ok(m) ==> m@ == (MembershipView {
            conversation_id,
            user_id,
            role: role_named(role@)->0,
            joined_at,
        }),
{
    let conversation_id = match ConversationId::new(conversation_id) {
        Ok(id) => id,
        Err(_) => return Err(InvalidStoredData),
    };
    let user_id = match UserId::new(user_id) {
        Ok(id) => id,
        Err(_) => return Err(InvalidStoredData),
    };
    let role = role_from_db(role)?;
    Ok(Membership::new(conversation_id, user_id, role, joined_at))
}

/// Builds a membership from stored values, rejecting values the domain
/// forbids.
pub fn read_membership(conversation_id: i64, user_id: i64, role: &str, joined_at_ms: i64) -> (r:
    Result<Membership, InvalidStoredData>)
    ensures
        !membership_row_fits(conversation_id, user_id, role@, joined_at_ms) ==> r is Err,
        r matches Ok(m) ==> membership_row_fits(conversation_id, user_id, role@, joined_at_ms)
            && membership_read_as(m@, conversation_id, user_id, role@, joined_at_ms),
{
    let joined_at = system_time_from_millis(joined_at_ms)?;
    membership_from_stored(conversation_id, user_id, role, joined_at)
}

impl MembershipRow {
    /// Converts the row into a membership.
    pub fn into_membership(self) -> (r: Result<Membership, InvalidStoredData>)
        ensures
            !membership_row_fits(self.conversation_id, self.user_id, self.role@, self.joined_at_ms)
                ==> r is Err,
            r matches Ok(m) ==> membership_row_fits(
                self.conversation_id,
                self.user_id,
                self.role@,
                self.joined_at_ms,
            ) && membership_read_as(
                m@,
                self.conversation_id,
                self.user_id,
                self.role@,
                self.joined_at_ms,
            ),
    {
        let joined_at = system_time_from_millis(self.joined_at_ms)?;
        membership_from_stored(self.conversation_id, self.user_id, self.role.as_str(), joined_at)
    }
}

/// A stored membership row joined with the member's account.
pub struct ConversationMemberRow {
    pub conversation_id: i64,
    pub user_id: i64,
    pub role: String,
    pub joined_at_ms: i64,
    pub display_name: String,
    pub user_created_at_ms: i64,
}

impl ConversationMemberRow {
    /// Converts the row into a conversation member.
    pub fn into_member(self) -> (r: Result<ConversationMember, InvalidStoredData>)
        ensures
            !membership_row_fits(self.conversation_id, self.user_id, self.role@, self.joined_at_ms)
                ==> r is Err,
            !user_row_fits(self.user_id, self.display_name@, self.user_created_at_ms) ==> r is Err,
            r matches Ok(m) ==> user_read_as(
                m@.user,
                self.user_id,
                self.display_name@,
                self.user_created_at_ms,
            ) && membership_read_as(
                m@.membership,
                self.conversation_id,
                self.user_id,
                self.role@,
                self.joined_at_ms,
            ),
    {
        read_member(
            self.conversation_id,
            self.user_id,
            self.role.as_str(),
            self.joined_at_ms,
            self.display_name.as_str(),
            self.user_created_at_ms,
        )
    }
}

/// Builds a member from stored values whose timestamps were already read as
/// `joined_at` and `user_created_at`: succeeds exactly when the other values
/// fit, and the membership then names the member's user.
pub fn member_from_stored(
    conversation_id: i64,
    user_id: i64,
    role: &str,
    joined_at: SystemTime,
    display_name: &str,
    user_created_at: SystemTime,
) -> (r: Result<ConversationMember, InvalidStoredData>)
    ensures
        r is Ok <==> membership_parts_fit(conversation_id, user_id, role@) && user_parts_fit(
            user_id,
            display_name@,
        ),
        r matches Ok(m) ==> m@.user == (UserView {
            id: user_id,
            display_name: display_name@,
            created_at: user_created_at,
        }) && m@.membership == (MembershipView {
            conversation_id,
            user_id,
            role: role_named(role@)->0,
            joined_at,
        }),
{
    let user = user_from_stored(user_id, display_name, user_created_at)?;
    let membership = membership_from_stored(conversation_id, user_id, role, joined_at)?;
    match ConversationMember::new(user, membership) {
        Ok(m) => Ok(m),
        Err(_) => Err(InvalidStoredData),
    }
}

fn read_member(
    conversation_id: i64,
    user_id: i64,
    role: &str,
    joined_at_ms: i64,
    display_name: &str,
    user_created_at_ms: i64,
) -> (r: Result<ConversationMember, InvalidStoredData>)
    ensures
        !membership_row_fits(conversation_id, user_id, role@, joined_at_ms) ==> r is Err,
        !user_row_fits(user_id, display_name@, user_created_at_ms) ==> r is Err,
        r matches Ok(m) ==> user_read_as(m@.user, user_id, display_name@, user_created_at_ms)
            && membership_read_as(m@.membership, conversation_id, user_id, role@, joined_at_ms),
{
    let user_created_at = system_time_from_millis(user_created_at_ms)?;
    let joined_at = system_time_from_millis(joined_at_ms)?;
    member_from_stored(conversation_id, user_id, role, joined_at, display_name, user_created_at)
}

/// A stored message row.
pub struct MessageRow {
    pub id: i64,
    pub conversation_id: i64,
    pub author_id: i64,
    pub body: String,
    pub created_at_ms: i64,
}

/// The stored message values other than the timestamp fit the domain
/// rules: positive IDs and a valid body.
pub open spec fn message_parts_fit(id: i64, conversation_id: i64, author_id: i64, body: Seq<char>) -> bool {
    &&& id > 0
    &&& conversation_id > 0
    &&& author_id > 0
    &&& message_body_check(body) is Ok
}

/// A stored message row fits the domain rules.
pub open spec fn message_row_fits(id: i64, conversation_id: i64, author_id: i64, body: Seq<char>, created_at_ms: i64) -> bool {
    message_parts_fit(id, conversation_id, author_id, body) && created_at_ms >= 0
}

/// The message a fitting row reads as.
pub open spec fn message_read_as(
    m: MessageView,
    id: i64,
    conversation_id: i64,
    author_id: i64,
    body: Seq<char>,
    created_at_ms: i64,
) -> bool {
    &&& m.id == id
    &&& m.conversation_id == conversation_id
    &&& m.author_id == author_id
    &&& m.body == body
    &&& millis_since_unix_epoch(m.created_at) == Some(created_at_ms as int)
}

/// Builds a message from stored values whose timestamp was already read as
/// `created_at`: succeeds exactly when the other values fit.
pub fn message_from_stored(id: i64, conversation_id: i64, author_id: i64, body: &str, created_at: SystemTime) -> (r:
    Result<Message, InvalidStoredData>)
    ensures
        r is Ok <==> message_parts_fit(id, conversation_id, author_id, body@),
        r matches Ok(m) ==> m@ == (MessageView { id, conversation_id, author_id, body: body@, created_at }),
{
    let id = match MessageId::new(id) {
        Ok(id) => id,
        Err(_) => return Err(InvalidStoredData),
    };
    let conversation_id = match ConversationId::new(conversation_id) {
        Ok(id) => id,
        Err(_) => return Err(InvalidStoredData),
    };
    let author_id = match UserId::new(author_id) {
        Ok(id) => id,
        Err(_) => return Err(InvalidStoredData),
    };
    let body_text = match MessageBody::parse(body) {
        Ok(b) => b,
        Err(_) => return Err(InvalidStoredData),
    };
    Ok(Message::new(id, conversation_id, author_id, body_text, created_at))
}

fn read_message(id: i64, conversation_id: i64, author_id: i64, body: &str, created_at_ms: i64) -> (r:
    Result<Message, InvalidStoredData>)
    ensures
        !message_row_fits(id, conversation_id, author_id, body@, created_at_ms) ==> r is Err,
        r matches Ok(m) ==> message_row_fits(id, conversation_id, author_id, body@, created_at_ms)
            && message_read_as(m@, id, conversation_id, author_id, body@, created_at_ms),
{
    let created_at = system_time_from_millis(created_at_ms)?;
    message_from_stored(id, conversation_id, author_id, body, created_at)
}

impl MessageRow {
    /// Converts the row into a message.
    pub fn into_message(self) -> (r: Result<Message, InvalidStoredData>)
        ensures
            !message_row_fits(
                self.id,
                self.conversation_id,
                self.author_id,
                self.body@,
                self.created_at_ms,
            ) ==> r is Err,
            r matches Ok(m) ==> message_row_fits(
                self.id,
                self.conversation_id,
                self.author_id,
                self.body@,
                self.created_at_ms,
            ) && message_read_as(
                m@,
                self.id,
                self.conversation_id,
                self.author_id,
                self.body@,
                self.created_at_ms,
            ),
    {
        read_message(
            self.id,
            self.conversation_id,
            self.author_id,
            self.body.as_str(),
            self.created_at_ms,
        )
    }
}

/// A stored optional timestamp read as an instant: absent when the column
/// is absent, negative, or not representable on this platform.
pub(crate) fn stored_time(ms: Option<i64>) -> (r: Option<SystemTime>)
    ensures
        ms is None ==> r is None,
        (ms matches Some(v) && v < 0) ==> r is None,
        r matches Some(t) ==> (ms matches Some(v) && v >= 0 && millis_since_unix_epoch(t) == Some(
            v as int,
        )),
{
    match ms {
        Some(v) => match system_time_from_millis(v) {
            Ok(t) => Some(t),
            Err(_) => None,
        },
        None => None,
    }
}

/// A row of a left join from the reader's membership to the messages of the
/// conversation: the message columns are all absent when the conversation
/// has no message in range.
pub struct OptionalMessageRow {
    pub viewer_role: String,
    pub id: Option<i64>,
    pub conversation_id: Option<i64>,
    pub author_id: Option<i64>,
    pub body: Option<String>,
    pub created_at_ms: Option<i64>,
}

impl OptionalMessageRow {
    /// Every message column is absent.
    pub open spec fn message_absent(&self) -> bool {
        self.id is None && self.conversation_id is None && self.author_id is None
            && self.body is None && self.created_at_ms is None
    }

    /// Every message column is present.
    pub open spec fn message_complete(&self) -> bool {
        self.id is Some && self.conversation_id is Some && self.author_id is Some
            && self.body is Some && self.created_at_ms is Some
    }

    /// The present message columns other than the timestamp fit.
    pub open spec fn message_parts_fit(&self) -> bool {
        message_parts_fit(self.id->0, self.conversation_id->0, self.author_id->0, self.body->0@)
    }

    /// Converts the row with its timestamp already read as `created_at`:
    /// no message when all message columns are absent; a message when all
    /// are present, their values fit and the timestamp was read; an error
    /// otherwise, and for an unknown viewer role.
    pub fn message_at(&self, created_at: Option<SystemTime>) -> (r: Result<Option<Message>, InvalidStoredData>)
        ensures
            r is Ok <==> role_named(self.viewer_role@) is Some && (self.message_absent() || (
            self.message_complete() && self.message_parts_fit() && created_at is Some)),
            r matches Ok(None) ==> self.message_absent(),
            r matches Ok(Some(m)) ==> self.message_complete() && m@ == (MessageView {
                id: self.id->0,
                conversation_id: self.conversation_id->0,
                author_id: self.author_id->0,
                body: self.body->0@,
                created_at: created_at->0,
            }),
    {
        role_from_db(self.viewer_role.as_str())?;
        match (&self.id, &self.conversation_id, &self.author_id, &self.body, &self.created_at_ms) {
            (None, None, None, None, None) => Ok(None),
            (Some(id), Some(conversation_id), Some(author_id), Some(body), Some(_)) => {
                match created_at {
                    Some(t) => match message_from_stored(
                        *id,
                        *conversation_id,
                        *author_id,
                        body.as_str(),
                        t,
                    ) {
                        Ok(m) => Ok(Some(m)),
                        Err(e) => Err(e),
                    },
                    None => Err(InvalidStoredData),
                }
            },
            _ => Err(InvalidStoredData),
        }
    }

    /// Converts the row: no message when all message columns are absent, a
    /// message when all are present and fit, and an error for an unknown
    /// viewer role, a partly absent message or values the domain forbids.
    pub fn into_message(self) -> (r: Result<Option<Message>, InvalidStoredData>)
        ensures
            role_named(self.viewer_role@) is None ==> r is Err,
            r matches Ok(None) ==> self.id is None && self.conversation_id is None
                && self.author_id is None && self.body is None && self.created_at_ms is None,
            r matches Ok(Some(m)) ==> self.id is Some && self.conversation_id is Some
                && self.author_id is Some && self.body is Some && self.created_at_ms is Some
                && message_read_as(
                m@,
                self.id->0,
                self.conversation_id->0,
                self.author_id->0,
                self.body->0@,
                self.created_at_ms->0,
            ),
            (self.id is None && self.conversation_id is None && self.author_id is None
                && self.body is None && self.created_at_ms is None && role_named(
                self.viewer_role@,
            ) is Some) ==> r matches Ok(None),
            !((self.id is None && self.conversation_id is None && self.author_id is None
                && self.body is None && self.created_at_ms is None) || (self.id is Some
                && self.conversation_id is Some && self.author_id is Some && self.body is Some
                && self.created_at_ms is Some)) ==> r is Err,
    {
        let created_at = stored_time(self.created_at_ms);
        self.message_at(created_at)
    }
}

/// A row of a left join from the reader's membership to the members of the
/// conversation: the member columns are all absent when no member is in
/// range.
pub struct OptionalConversationMemberRow {
    pub viewer_role: String,
    pub conversation_id: Option<i64>,
    pub user_id: Option<i64>,
    pub role: Option<String>,
    pub joined_at_ms: Option<i64>,
    pub display_name: Option<String>,
    pub user_created_at_ms: Option<i64>,
}

impl OptionalConversationMemberRow {
    /// Every member column is absent.
    pub open spec fn member_absent(&self) -> bool {
        self.conversation_id is None && self.user_id is None && self.role is None
            && self.joined_at_ms is None && self.display_name is None
            && self.user_created_at_ms is None
    }

    /// Every member column is present.
    pub open spec fn member_complete(&self) -> bool {
        self.conversation_id is Some && self.user_id is Some && self.role is Some
            && self.joined_at_ms is Some && self.display_name is Some
            && self.user_created_at_ms is Some
    }

    /// The present member columns other than the timestamps fit.
    pub open spec fn member_parts_fit(&self) -> bool {
        membership_parts_fit(self.conversation_id->0, self.user_id->0, self.role->0@)
            && user_parts_fit(self.user_id->0, self.display_name->0@)
    }

    /// Converts the row with its timestamps already read as `joined_at` and
    /// `user_created_at`: no member when all member columns are absent; a
    /// member when all are present, their values fit and both timestamps
    /// were read; an error otherwise, and for an unknown viewer role.
    pub fn member_at(&self, joined_at: Option<SystemTime>, user_created_at: Option<SystemTime>) -> (r:
        Result<Option<ConversationMember>, InvalidStoredData>)
        ensures
            r is Ok <==> role_named(self.viewer_role@) is Some && (self.member_absent() || (
            self.member_complete() && self.member_parts_fit() && joined_at is Some
                && user_created_at is Some)),
            r matches Ok(None) ==> self.member_absent(),
            r matches Ok(Some(m)) ==> self.member_complete() && m@.user == (UserView {
                id: self.user_id->0,
                display_name: self.display_name->0@,
                created_at: user_created_at->0,
            }) && m@.membership == (MembershipView {
                conversation_id: self.conversation_id->0,
                user_id: self.user_id->0,
                role: role_named(self.role->0@)->0,
                joined_at: joined_at->0,
            }),
    {
        role_from_db(self.viewer_role.as_str())?;
        match (
            &self.conversation_id,
            &self.user_id,
            &self.role,
            &self.joined_at_ms,
            &self.display_name,
            &self.user_created_at_ms,
        ) {
            (None, None, None, None, None, None) => Ok(None),
            (
                Some(conversation_id),
                Some(user_id),
                Some(role),
                Some(_),
                Some(display_name),
                Some(_),
            ) => {
                match (joined_at, user_created_at) {
                    (Some(j), Some(u)) => match member_from_stored(
                        *conversation_id,
                        *user_id,
                        role.as_str(),
                        j,
                        display_name.as_str(),
                        u,
                    ) {
                        Ok(m) => Ok(Some(m)),
                        Err(e) => Err(e),
                    },
                    _ => Err(InvalidStoredData),
                }
            },
            _ => Err(InvalidStoredData),
        }
    }

    /// Converts the row: no member when all member columns are absent, a
    /// member when all are present and fit, and an error for an unknown viewer
    /// role, a partly absent member or values the domain forbids.
    pub fn into_member(self) -> (r: Result<Option<ConversationMember>, InvalidStoredData>)
        ensures
            role_named(self.viewer_role@) is None ==> r is Err,
            r matches Ok(None) ==> self.conversation_id is None && self.user_id is None
                && self.role is None && self.joined_at_ms is None && self.display_name is None
                && self.user_created_at_ms is None,
            r matches Ok(Some(m)) ==> self.conversation_id is Some && self.user_id is Some
                && self.role is Some && self.joined_at_ms is Some && self.display_name is Some
                && self.user_created_at_ms is Some && user_read_as(
                m@.user,
                self.user_id->0,
                self.display_name->0@,
                self.user_created_at_ms->0,
            ) && membership_read_as(
                m@.membership,
                self.conversation_id->0,
                self.user_id->0,
                self.role->0@,
                self.joined_at_ms->0,
            ),
            (self.conversation_id is None && self.user_id is None && self.role is None
                && self.joined_at_ms is None && self.display_name is None
                && self.user_created_at_ms is None && role_named(self.viewer_role@) is Some)
                ==> r matches Ok(None),
            !((self.conversation_id is None && self.user_id is None && self.role is None
                && self.joined_at_ms is None && self.display_name is None
                && self.user_created_at_ms is None) || (self.conversation_id is Some
                && self.user_id is Some && self.role is Some && self.joined_at_ms is Some
                && self.display_name is Some && self.user_created_at_ms is Some)) ==> r is Err,
            (self.conversation_id is Some && self.user_id is Some && self.role is Some
                && self.joined_at_ms is Some && self.display_name is Some
                && self.user_created_at_ms is Some && !(membership_row_fits(
                self.conversation_id->0,
                self.user_id->0,
                self.role->0@,
                self.joined_at_ms->0,
            ) && user_row_fits(
                self.user_id->0,
                self.display_name->0@,
                self.user_created_at_ms->0,
            ))) ==> r is Err,
    {
        let joined_at = stored_time(self.joined_at_ms);
        let user_created_at = stored_time(self.user_created_at_ms);
        self.member_at(joined_at, user_created_at)
    }
}

} // verus!
