use vstd::prelude::*;

use crate::chat::Chat;
use crate::conversation::{
    conversation_title_check, Conversation, ConversationTitle, ConversationTitleError,
    ConversationView, CreatedConversation, NewConversation,
};
use crate::event::{events_view, ChatEvent, ChatEventView};
use crate::id::UserId;
use crate::membership::{Membership, MembershipRole, MembershipView};

verus! {

/// Requests creation of a conversation.
#[derive(Clone, Debug, PartialEq, Eq)]
pub struct CreateConversation {
    title: String,
}

impl View for CreateConversation {
    type V = Seq<char>;

    closed spec fn view(&self) -> Seq<char> {
        self.title@
    }
}

impl CreateConversation {
    /// Creates a conversation command.
    pub fn new(title: &str) -> (r: Self)
        ensures
            r@ == title@,
    {
        CreateConversation { title: title.to_owned() }
    }

    /// Returns the unvalidated title.
    pub fn title(&self) -> (r: &str)
        ensures
            r@ == self@,
    {
        self.title.as_str()
    }
}

/// Describes why conversation creation failed.
#[derive(Clone, Copy, Debug, PartialEq, Eq, Structural)]
pub enum CreateConversationError {
    /// The supplied title is invalid.
    InvalidTitle(ConversationTitleError),
    /// The creator does not exist.
    CreatorNotFound,
    /// The store returned inconsistent conversation state.
    InvalidStoreResult,
    /// Persistence was temporarily unavailable.
    StoreUnavailable,
}

impl From<ConversationTitleError> for CreateConversationError {
    fn from(error: ConversationTitleError) -> (r: Self) {
        CreateConversationError::InvalidTitle(error)
    }
}

impl vstd::std_specs::convert::FromSpecImpl<ConversationTitleError> for CreateConversationError {
    open spec fn obeys_from_spec() -> bool {
        true
    }

    open spec fn from_spec(v: ConversationTitleError) -> Self {
        CreateConversationError::InvalidTitle(v)
    }
}

/// The conversation, owner membership and events of a successful creation.
pub struct CreateConversationResultView {
    pub conversation: ConversationView,
    pub creator_membership: MembershipView,
    pub events: Seq<ChatEventView>,
}

/// The result of creating a conversation and its owner membership.
#[derive(Clone, Debug, PartialEq, Eq)]
pub struct CreateConversationResult {
    conversation: Conversation,
    creator_membership: Membership,
    events: Vec<ChatEvent>,
}

impl View for CreateConversationResult {
    type V = CreateConversationResultView;

    closed spec fn view(&self) -> CreateConversationResultView {
        CreateConversationResultView {
            conversation: self.conversation@,
            creator_membership: self.creator_membership@,
            events: events_view(self.events@),
        }
    }
}

/// Whether a created conversation carries its creator as owner of that very
/// conversation.
pub open spec fn owner_membership_matches(c: ConversationView, m: MembershipView) -> bool {
    m.role == MembershipRole::Owner && m.conversation_id == c.id
}

impl CreateConversationResult {
    fn new(created: CreatedConversation) -> (r: Result<Self, CreateConversationError>)
        ensures
            owner_membership_matches(created@.conversation, created@.creator_membership) <==> r is Ok,
            r matches Err(e) ==> e == CreateConversationError::InvalidStoreResult,
            r matches Ok(result) ==> result@.conversation == created@.conversation
                && result@.creator_membership == created@.creator_membership && result@.events
                == seq![
                ChatEventView::ConversationCreated(
                    created@.conversation,
                    created@.creator_membership,
                ),
            ],
    {
        let (conversation, creator_membership) = created.into_parts();
        let role = creator_membership.role();
        if role != MembershipRole::Owner || creator_membership.conversation_id().get()
            != conversation.id().get() {
            return Err(CreateConversationError::InvalidStoreResult);
        }
        let events = vec![
            ChatEvent::ConversationCreated {
                conversation: conversation.clone(),
                creator_membership: creator_membership.clone(),
            },
        ];
        let r = CreateConversationResult { conversation, creator_membership, events };
        assert(r@.events =~= seq![
            ChatEventView::ConversationCreated(r@.conversation, r@.creator_membership),
        ]);
        Ok(r)
    }

    /// Returns the created conversation.
    pub fn conversation(&self) -> (r: &Conversation)
        ensures
            r@ == self@.conversation,
    {
        &self.conversation
    }

    /// Returns the creator's owner membership.
    pub fn creator_membership(&self) -> (r: &Membership)
        ensures
            r@ == self@.creator_membership,
    {
        &self.creator_membership
    }

    /// Returns the events produced after persistence succeeded.
    pub fn events(&self) -> (r: &[ChatEvent])
        ensures
            events_view(r@) == self@.events,
    {
        self.events.as_slice()
    }
}

impl<S> Chat<S> {
    /// Validates a create-conversation command into the request handed to the
    /// store.
    pub fn create_conversation_request(&self, creator_id: UserId, command: &CreateConversation) -> (r:
        Result<NewConversation, CreateConversationError>)
        ensures
            match conversation_title_check(command@) {
                Ok(title) => r matches Ok(request) && request@.title == title
                    && request@.creator_id == creator_id@,
                Err(e) => r == Err::<NewConversation, CreateConversationError>(
                    CreateConversationError::InvalidTitle(e),
                ),
            },
    {
        match ConversationTitle::parse(command.title.as_str()) {
            Ok(title) => Ok(NewConversation::new(creator_id, title)),
            Err(e) => Err(CreateConversationError::InvalidTitle(e)),
        }
    }

    /// Checks what the store answered for `request`: a store error is passed
    /// on; a conversation with another title, a membership for another user,
    /// a non-owner membership or one for another conversation is an invalid
    /// store result; otherwise the result carries one `ConversationCreated`
    /// event.
    pub fn create_conversation_outcome(
        &self,
        request: &NewConversation,
        stored: Result<CreatedConversation, CreateConversationError>,
    ) -> (r: Result<CreateConversationResult, CreateConversationError>)
        ensures
            match stored {
                Err(e) => r == Err::<CreateConversationResult, CreateConversationError>(e),
                Ok(created) => if created@.conversation.title != request@.title
                    || created@.creator_membership.user_id != request@.creator_id
                    || !owner_membership_matches(
                    created@.conversation,
                    created@.creator_membership,
                ) {
                    r == Err::<CreateConversationResult, CreateConversationError>(
                        CreateConversationError::InvalidStoreResult,
                    )
                } else {
                    r matches Ok(result) && result@.conversation == created@.conversation
                        && result@.creator_membership == created@.creator_membership
                        && result@.events == seq![
                        ChatEventView::ConversationCreated(
                            created@.conversation,
                            created@.creator_membership,
                        ),
                    ]
                },
            },
    {
        let created = match stored {
            Ok(created) => created,
            Err(e) => return Err(e),
        };
        if !created.conversation().title().same_text(request.title())
            || created.creator_membership().user_id().get() != request.creator_id().get() {
            return Err(CreateConversationError::InvalidStoreResult);
        }
        CreateConversationResult::new(created)
    }
}

} // verus!
