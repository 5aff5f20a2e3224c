use std::time::SystemTime;

use vstd::prelude::*;

use crate::auth::{unix_time_millis, AuthenticatedSession};
use crate::conversation::{Conversation, ConversationView};
use crate::create_conversation::CreateConversationResult;
use crate::decimal::{format_i64, i64_decimal};
use crate::get_conversation::{ConversationDetails, ConversationEntryView};
use crate::list_conversations::{ConversationPage, ConversationSummary};
use crate::list_members::{ConversationMember, ConversationMemberView, MemberPage};
use crate::list_messages::MessagePage;
use crate::membership::MembershipRole;
use crate::message::{Message, MessageView};
use crate::post_message::PostMessageResult;
use crate::problem::{internal_problem, Problem};
use crate::time::millis_since_unix_epoch;
use crate::token::base64_url_decoding;
use crate::user::{User, UserView};

verus! {

/// A timestamp as the HTTP API writes it: milliseconds since the Unix
/// epoch, when that fits an `i64`.
pub open spec fn timestamp_of(t: SystemTime) -> Option<i64> {
    match millis_since_unix_epoch(t) {
        Some(m) => if m <= i64::MAX {
            Some(m as i64)
        } else {
            None
        },
        None => None,
    }
}

/// Writes a domain timestamp for the HTTP API; one it cannot represent is an
/// internal error.
pub fn timestamp_millis(t: &SystemTime) -> (r: Result<i64, Problem>)
    ensures
        match timestamp_of(*t) {
            Some(v) => r matches Ok(w) && w == v,
            None => r matches Err(p) && p@ == internal_problem(),
        },
{
    match unix_time_millis(*t) {
        Ok(v) => Ok(v),
        Err(_) => Err(Problem::internal()),
    }
}

/// The name of a role in the HTTP API.
pub open spec fn role_label(role: MembershipRole) -> Seq<char> {
    match role {
        MembershipRole::Owner => "owner"@,
        MembershipRole::Member => "member"@,
    }
}

/// The name the HTTP API writes for a role is the text the role is stored
/// as, and reads back as that role; the two roles get different names.
pub proof fn lemma_role_label_names_the_role(role: MembershipRole, other: MembershipRole)
    ensures
        crate::row::role_named(role_label(role)) == Some(role),
        role_label(role) == crate::row::role_text(role),
        role != other ==> role_label(role) != role_label(other),
{
    reveal_strlit("owner");
    reveal_strlit("member");
    assert("owner"@.len() == 5 && "member"@.len() == 6);
    assert("member"@ != "owner"@);
}

/// Returns the name of a role in the HTTP API.
pub fn role_name(role: MembershipRole) -> (r: &'static str)
    ensures
        r@ == role_label(role),
        crate::row::role_named(r@) == Some(role),
{
    proof {
        lemma_role_label_names_the_role(role, role);
    }
    match role {
        MembershipRole::Owner => "owner",
        MembershipRole::Member => "member",
    }
}

/// A user as the HTTP API writes it.
pub struct UserRepresentationView {
    pub id: Seq<char>,
    pub display_name: Seq<char>,
    pub created_at_ms: i64,
}

/// A user as the HTTP API writes it.
#[derive(Clone, Debug, PartialEq, Eq)]
pub struct UserRepresentation {
    pub id: String,
    pub display_name: String,
    pub created_at_ms: i64,
}

impl View for UserRepresentation {
    type V = UserRepresentationView;

    open spec fn view(&self) -> UserRepresentationView {
        UserRepresentationView {
            id: self.id@,
            display_name: self.display_name@,
            created_at_ms: self.created_at_ms,
        }
    }
}

/// The representation of a user, when its creation time can be written.
pub open spec fn user_repr(u: UserView) -> Option<UserRepresentationView> {
    match timestamp_of(u.created_at) {
        Some(t) => Some(
            UserRepresentationView { id: i64_decimal(u.id), display_name: u.display_name, created_at_ms: t },
        ),
        None => None,
    }
}

impl UserRepresentation {
    /// Writes `user` for the HTTP API.
    pub fn try_from_user(user: &User) -> (r: Result<Self, Problem>)
        ensures
            match user_repr(user@) {
                Some(v) => r matches Ok(u) && u@ == v,
                None => r matches Err(p) && p@ == internal_problem(),
            },
    {
        let created_at_ms = timestamp_millis(user.created_at())?;
        Ok(
            UserRepresentation {
                id: format_i64(user.id().get()),
                display_name: user.display_name().as_str().to_owned(),
                created_at_ms,
            },
        )
    }
}

/// The signed-in user and the session's CSRF token.
#[derive(Clone, Debug, PartialEq, Eq)]
pub struct SessionRepresentation {
    pub user: UserRepresentation,
    pub csrf_token: String,
}

impl SessionRepresentation {
    /// Writes a signed-in session for the HTTP API.
    pub fn try_from_session(session: &AuthenticatedSession) -> (r: Result<Self, Problem>)
        ensures
            match user_repr(session.user_view()) {
                Some(v) => r matches Ok(s) && s.user@ == v && base64_url_decoding(s.csrf_token@)
                    == Some(session.csrf()),
                None => r matches Err(p) && p@ == internal_problem(),
            },
    {
        let user = UserRepresentation::try_from_user(session.user())?;
        Ok(SessionRepresentation { user, csrf_token: session.csrf_token() })
    }
}

/// A conversation as the HTTP API writes it.
pub struct ConversationRepresentationView {
    pub id: Seq<char>,
    pub title: Seq<char>,
    pub created_at_ms: i64,
    pub role: Seq<char>,
}

/// A conversation, with the requesting user's role, as the HTTP API writes
/// it.
#[derive(Clone, Debug, PartialEq, Eq)]
pub struct ConversationRepresentation {
    pub id: String,
    pub title: String,
    pub created_at_ms: i64,
    pub role: &'static str,
}

impl View for ConversationRepresentation {
    type V = ConversationRepresentationView;

    open spec fn view(&self) -> ConversationRepresentationView {
        ConversationRepresentationView {
            id: self.id@,
            title: self.title@,
            created_at_ms: self.created_at_ms,
            role: self.role@,
        }
    }
}

/// The representation of a conversation seen with `role`, when its creation
/// time can be written.
pub open spec fn conversation_repr(c: ConversationView, role: MembershipRole) -> Option<
    ConversationRepresentationView,
> {
    match timestamp_of(c.created_at) {
        Some(t) => Some(
            ConversationRepresentationView {
                id: i64_decimal(c.id),
                title: c.title,
                created_at_ms: t,
                role: role_label(role),
            },
        ),
        None => None,
    }
}

impl ConversationRepresentation {
    /// Writes a conversation seen with `role`.
    pub fn try_from_conversation(conversation: &Conversation, role: MembershipRole) -> (r: Result<
        Self,
        Problem,
    >)
        ensures
            match conversation_repr(conversation@, role) {
                Some(v) => r matches Ok(c) && c@ == v,
                None => r matches Err(p) && p@ == internal_problem(),
            },
    {
        let created_at_ms = timestamp_millis(conversation.created_at())?;
        Ok(
            ConversationRepresentation {
                id: format_i64(conversation.id().get()),
                title: conversation.title().as_str().to_owned(),
                created_at_ms,
                role: role_name(role),
            },
        )
    }

    /// Writes a conversation from a listing.
    pub fn try_from_summary(summary: &ConversationSummary) -> (r: Result<Self, Problem>)
        ensures
            match conversation_repr(summary@.conversation, summary@.role) {
                Some(v) => r matches Ok(c) && c@ == v,
                None => r matches Err(p) && p@ == internal_problem(),
            },
    {
        ConversationRepresentation::try_from_conversation(summary.conversation(), summary.role())
    }

    /// Writes a conversation that was read on its own.
    pub fn try_from_details(details: &ConversationDetails) -> (r: Result<Self, Problem>)
        ensures
            match conversation_repr(details@.conversation, details@.role) {
                Some(v) => r matches Ok(c) && c@ == v,
                None => r matches Err(p) && p@ == internal_problem(),
            },
    {
        ConversationRepresentation::try_from_conversation(details.conversation(), details.role())
    }
}

/// The decimal form of an optional cursor.
pub open spec fn cursor_text(cursor: Option<i64>) -> Option<Seq<char>> {
    match cursor {
        Some(id) => Some(i64_decimal(id)),
        None => None,
    }
}

/// The view of an optional string.
pub open spec fn text_view(s: Option<String>) -> Option<Seq<char>> {
    match s {
        Some(v) => Some(v@),
        None => None,
    }
}

/// A page of conversations as the HTTP API writes it.
#[derive(Clone, Debug, PartialEq, Eq)]
pub struct ConversationPageRepresentation {
    pub conversations: Vec<ConversationRepresentation>,
    pub next_cursor: Option<String>,
}

/// Whether every entry of a conversation page can be written.
pub open spec fn conversations_writable(entries: Seq<ConversationEntryView>) -> bool {
    forall|i: int| 0 <= i < entries.len() ==> #[trigger] conversation_repr(entries[i].conversation, entries[i].role) is Some
}

/// Writes a page of conversations; an entry whose time cannot be written
/// makes the whole page an internal error.
pub fn conversation_page(page: &ConversationPage) -> (r: Result<ConversationPageRepresentation, Problem>)
    ensures
        match r {
            Ok(p) => conversations_writable(page@.conversations) && p.conversations@.len() == page@.conversations.len() && (forall|i: int|
                0 <= i < page@.conversations.len() ==> Some(#[trigger] p.conversations@[i]@) == conversation_repr(page@.conversations[i].conversation, page@.conversations[i].role))
                && text_view(p.next_cursor) == cursor_text(page@.next_cursor),
            Err(e) => !conversations_writable(page@.conversations) && e@ == internal_problem(),
        },
{
    let entries = page.conversations();
    let mut out: Vec<ConversationRepresentation> = Vec::new();
    let mut i: usize = 0;
    while i < entries.len()
        invariant
            i <= entries@.len(),
            entries@.map_values(|s: ConversationSummary| s@) == page@.conversations,
            out@.len() == i,
            forall|j: int| 0 <= j < i ==> #[trigger] conversation_repr(page@.conversations[j].conversation, page@.conversations[j].role) == Some(out@[j]@),
        decreases entries.len() - i,
    {
        assert(page@.conversations[i as int] == entries@[i as int]@);
        match ConversationRepresentation::try_from_summary(&entries[i]) {
            Ok(c) => out.push(c),
            Err(p) => return Err(p),
        }
        i = i + 1;
    }
    let next_cursor = match page.next_cursor() {
        Some(id) => Some(format_i64(id.get())),
        None => None,
    };
    Ok(ConversationPageRepresentation { conversations: out, next_cursor })
}

/// The path of a created conversation.
pub open spec fn conversation_location(id: i64) -> Seq<char> {
    "/api/v1/conversations/"@ + i64_decimal(id)
}

/// Writes a created conversation, seen by its owner, with its location.
pub fn created_conversation(result: &CreateConversationResult) -> (r: Result<
    (String, ConversationRepresentation),
    Problem,
>)
    ensures
        match conversation_repr(result@.conversation, MembershipRole::Owner) {
            Some(v) => r matches Ok((location, c)) && c@ == v && location@ == conversation_location(
                result@.conversation.id,
            ),
            None => r matches Err(p) && p@ == internal_problem(),
        },
{
    let conversation = ConversationRepresentation::try_from_conversation(
        result.conversation(),
        MembershipRole::Owner,
    )?;
    let location = String::from_str("/api/v1/conversations/").concat(
        format_i64(result.conversation().id().get()).as_str(),
    );
    Ok((location, conversation))
}

/// A member as the HTTP API writes it.
#[derive(Clone, Debug, PartialEq, Eq)]
pub struct MemberRepresentation {
    pub user: UserRepresentation,
    pub role: &'static str,
    pub joined_at_ms: i64,
}

/// A member as the HTTP API writes it.
pub struct MemberRepresentationView {
    pub user: UserRepresentationView,
    pub role: Seq<char>,
    pub joined_at_ms: i64,
}

impl View for MemberRepresentation {
    type V = MemberRepresentationView;

    open spec fn view(&self) -> MemberRepresentationView {
        MemberRepresentationView { user: self.user@, role: self.role@, joined_at_ms: self.joined_at_ms }
    }
}

/// The representation of a member, when both times can be written.
pub open spec fn member_repr(m: ConversationMemberView) -> Option<MemberRepresentationView> {
    match (user_repr(m.user), timestamp_of(m.membership.joined_at)) {
        (Some(u), Some(t)) => Some(
            MemberRepresentationView { user: u, role: role_label(m.membership.role), joined_at_ms: t },
        ),
        _ => None,
    }
}

impl MemberRepresentation {
    /// Writes a conversation member.
    pub fn try_from_member(member: &ConversationMember) -> (r: Result<Self, Problem>)
        ensures
            match member_repr(member@) {
                Some(v) => r matches Ok(m) && m@ == v,
                None => r matches Err(p) && p@ == internal_problem(),
            },
    {
        let user = UserRepresentation::try_from_user(member.user())?;
        let joined_at_ms = timestamp_millis(member.membership().joined_at())?;
        Ok(MemberRepresentation { user, role: role_name(member.membership().role()), joined_at_ms })
    }
}

/// A page of members as the HTTP API writes it.
#[derive(Clone, Debug, PartialEq, Eq)]
pub struct MemberPageRepresentation {
    pub members: Vec<MemberRepresentation>,
    pub next_cursor: Option<String>,
}

/// Whether every member of a page can be written.
pub open spec fn members_writable(members: Seq<ConversationMemberView>) -> bool {
    forall|i: int| 0 <= i < members.len() ==> #[trigger] member_repr(members[i]) is Some
}

/// Writes a page of members; a member whose times cannot be written makes
/// the whole page an internal error.
pub fn member_page(page: &MemberPage) -> (r: Result<MemberPageRepresentation, Problem>)
    ensures
        match r {
            Ok(p) => members_writable(page@.members) && p.members@.len() == page@.members.len() && (forall|i: int|
                0 <= i < page@.members.len() ==> Some(#[trigger] p.members@[i]@) == member_repr(page@.members[i]))
                && text_view(p.next_cursor) == cursor_text(page@.next_cursor),
            Err(e) => !members_writable(page@.members) && e@ == internal_problem(),
        },
{
    let members = page.members();
    let mut out: Vec<MemberRepresentation> = Vec::new();
    let mut i: usize = 0;
    while i < members.len()
        invariant
            i <= members@.len(),
            members@.map_values(|m: ConversationMember| m@) == page@.members,
            out@.len() == i,
            forall|j: int| 0 <= j < i ==> #[trigger] member_repr(page@.members[j]) == Some(out@[j]@),
        decreases members.len() - i,
    {
        assert(page@.members[i as int] == members@[i as int]@);
        match MemberRepresentation::try_from_member(&members[i]) {
            Ok(m) => out.push(m),
            Err(p) => return Err(p),
        }
        i = i + 1;
    }
    let next_cursor = match page.next_cursor() {
        Some(id) => Some(format_i64(id.get())),
        None => None,
    };
    Ok(MemberPageRepresentation { members: out, next_cursor })
}

/// A message as the HTTP API writes it.
#[derive(Clone, Debug, PartialEq, Eq)]
pub struct MessageRepresentation {
    pub id: String,
    pub conversation_id: String,
    pub author_id: String,
    pub body: String,
    pub created_at_ms: i64,
}

/// A message as the HTTP API writes it.
pub struct MessageRepresentationView {
    pub id: Seq<char>,
    pub conversation_id: Seq<char>,
    pub author_id: Seq<char>,
    pub body: Seq<char>,
    pub created_at_ms: i64,
}

impl View for MessageRepresentation {
    type V = MessageRepresentationView;

    open spec fn view(&self) -> MessageRepresentationView {
        MessageRepresentationView {
            id: self.id@,
            conversation_id: self.conversation_id@,
            author_id: self.author_id@,
            body: self.body@,
            created_at_ms: self.created_at_ms,
        }
    }
}

/// The representation of a message, when its creation time can be written.
pub open spec fn message_repr(m: MessageView) -> Option<MessageRepresentationView> {
    match timestamp_of(m.created_at) {
        Some(t) => Some(
            MessageRepresentationView {
                id: i64_decimal(m.id),
                conversation_id: i64_decimal(m.conversation_id),
                author_id: i64_decimal(m.author_id),
                body: m.body,
                created_at_ms: t,
            },
        ),
        None => None,
    }
}

/// A written user, conversation or member reads back as what was written:
/// identifiers parse back to the same numbers, names and titles are kept,
/// and a role is written as the text it is stored as.
pub proof fn lemma_representations_read_back(
    u: UserView,
    c: ConversationView,
    role: MembershipRole,
    m: ConversationMemberView,
)
    ensures
        user_repr(u) matches Some(v) ==> crate::decimal::i64_from_decimal(v.id) == Some(u.id)
            && v.display_name == u.display_name && timestamp_of(u.created_at) == Some(
            v.created_at_ms,
        ),
        conversation_repr(c, role) matches Some(v) ==> crate::decimal::i64_from_decimal(v.id)
            == Some(c.id) && v.title == c.title && crate::row::role_named(v.role) == Some(role)
            && timestamp_of(c.created_at) == Some(v.created_at_ms),
        member_repr(m) matches Some(v) ==> crate::decimal::i64_from_decimal(v.user.id) == Some(
            m.user.id,
        ) && v.user.display_name == m.user.display_name && crate::row::role_named(v.role) == Some(
            m.membership.role,
        ) && timestamp_of(m.membership.joined_at) == Some(v.joined_at_ms),
{
    crate::decimal::lemma_i64_decimal_round_trip(u.id);
    crate::decimal::lemma_i64_decimal_round_trip(c.id);
    crate::decimal::lemma_i64_decimal_round_trip(m.user.id);
    lemma_role_label_names_the_role(role, role);
    lemma_role_label_names_the_role(m.membership.role, m.membership.role);
}

/// A written message reads back as the message: its identifiers parse back
/// to the message's ID, conversation and author, its body is the message's
/// body, and its timestamp is the message's creation time as written.
pub proof fn lemma_message_repr_reads_back(m: MessageView)
    ensures
        message_repr(m) matches Some(v) ==> {
            &&& crate::decimal::i64_from_decimal(v.id) == Some(m.id)
            &&& crate::decimal::i64_from_decimal(v.conversation_id) == Some(m.conversation_id)
            &&& crate::decimal::i64_from_decimal(v.author_id) == Some(m.author_id)
            &&& v.body == m.body
            &&& timestamp_of(m.created_at) == Some(v.created_at_ms)
        },
{
    crate::decimal::lemma_i64_decimal_round_trip(m.id);
    crate::decimal::lemma_i64_decimal_round_trip(m.conversation_id);
    crate::decimal::lemma_i64_decimal_round_trip(m.author_id);
}

impl MessageRepresentation {
    /// Writes a message.
    pub fn try_from_message(message: &Message) -> (r: Result<Self, Problem>)
        ensures
            match message_repr(message@) {
                Some(v) => r matches Ok(m) && m@ == v,
                None => r matches Err(p) && p@ == internal_problem(),
            },
            r matches Ok(w) ==> crate::decimal::i64_from_decimal(w@.id) == Some(message@.id)
                && crate::decimal::i64_from_decimal(w@.conversation_id) == Some(
                message@.conversation_id,
            ) && crate::decimal::i64_from_decimal(w@.author_id) == Some(message@.author_id)
                && w@.body == message@.body,
    {
        proof {
            lemma_message_repr_reads_back(message@);
        }
        let created_at_ms = timestamp_millis(message.created_at())?;
        Ok(
            MessageRepresentation {
                id: format_i64(message.id().get()),
                conversation_id: format_i64(message.conversation_id().get()),
                author_id: format_i64(message.author_id().get()),
                body: message.body().as_str().to_owned(),
                created_at_ms,
            },
        )
    }
}

/// The path of a created message.
pub open spec fn message_location(conversation_id: i64, message_id: i64) -> Seq<char> {
    "/api/v1/conversations/"@ + i64_decimal(conversation_id) + "/messages/"@ + i64_decimal(message_id)
}

/// Writes a posted message with its location.
pub fn created_message(result: &PostMessageResult) -> (r: Result<(String, MessageRepresentation), Problem>)
    ensures
        match message_repr(result@.message) {
            Some(v) => r matches Ok((location, m)) && m@ == v && location@ == message_location(
                result@.message.conversation_id,
                result@.message.id,
            ),
            None => r matches Err(p) && p@ == internal_problem(),
        },
{
    let message = result.message();
    let representation = MessageRepresentation::try_from_message(message)?;
    let location = String::from_str("/api/v1/conversations/").concat(
        format_i64(message.conversation_id().get()).as_str(),
    ).concat("/messages/").concat(format_i64(message.id().get()).as_str());
    Ok((location, representation))
}

/// A page of messages as the HTTP API writes it.
#[derive(Clone, Debug, PartialEq, Eq)]
pub struct MessagePageRepresentation {
    pub messages: Vec<MessageRepresentation>,
    pub next_cursor: Option<String>,
}

/// Whether every message of a page can be written.
pub open spec fn messages_writable(messages: Seq<MessageView>) -> bool {
    forall|i: int| 0 <= i < messages.len() ==> #[trigger] message_repr(messages[i]) is Some
}

/// Writes a page of messages; a message whose time cannot be written makes
/// the whole page an internal error.
pub fn message_page(page: &MessagePage) -> (r: Result<MessagePageRepresentation, Problem>)
    ensures
        match r {
            Ok(p) => messages_writable(page@.messages) && p.messages@.len() == page@.messages.len() && (forall|i: int|
                0 <= i < page@.messages.len() ==> Some(#[trigger] p.messages@[i]@) == message_repr(page@.messages[i]))
                && text_view(p.next_cursor) == cursor_text(page@.next_cursor),
            Err(e) => !messages_writable(page@.messages) && e@ == internal_problem(),
        },
{
    let messages = page.messages();
    let mut out: Vec<MessageRepresentation> = Vec::new();
    let mut i: usize = 0;
    while i < messages.len()
        invariant
            i <= messages@.len(),
            messages@.map_values(|m: Message| m@) == page@.messages,
            out@.len() == i,
            forall|j: int| 0 <= j < i ==> #[trigger] message_repr(page@.messages[j]) == Some(out@[j]@),
        decreases messages.len() - i,
    {
        assert(page@.messages[i as int] == messages@[i as int]@);
        match MessageRepresentation::try_from_message(&messages[i]) {
            Ok(m) => out.push(m),
            Err(p) => return Err(p),
        }
        i = i + 1;
    }
    let next_cursor = match page.next_cursor() {
        Some(id) => Some(format_i64(id.get())),
        None => None,
    };
    Ok(MessagePageRepresentation { messages: out, next_cursor })
}

} // verus!
