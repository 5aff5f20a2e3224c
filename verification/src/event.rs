use vstd::prelude::*;

use crate::conversation::{Conversation, ConversationView};
use crate::membership::{Membership, MembershipView};
use crate::message::{Message, MessageView};
use crate::user::{User, UserView};

verus! {

/// A fact produced by a successful chat use case.
#[derive(Debug, PartialEq, Eq)]
pub enum ChatEvent {
    /// A user was created.
    UserCreated {
        /// The created user.
        user: User,
    },
    /// A conversation and its owner membership were created.
    ConversationCreated {
        /// The created conversation.
        conversation: Conversation,
        /// The creator's owner membership.
        creator_membership: Membership,
    },
    /// A member was added to a conversation.
    MemberAdded {
        /// The created membership.
        membership: Membership,
    },
    /// A member was removed from a conversation.
    MemberRemoved {
        /// The removed membership.
        membership: Membership,
    },
    /// A message was stored and is ready for delivery.
    MessagePosted {
        /// The stored message.
        message: Message,
    },
}

/// An event as contracts speak of it.
pub enum ChatEventView {
    UserCreated(UserView),
    ConversationCreated(ConversationView, MembershipView),
    MemberAdded(MembershipView),
    MemberRemoved(MembershipView),
    MessagePosted(MessageView),
}

impl View for ChatEvent {
    type V = ChatEventView;

    open spec fn view(&self) -> ChatEventView {
        match self {
            ChatEvent::UserCreated { user } => ChatEventView::UserCreated(user@),
            ChatEvent::ConversationCreated { conversation, creator_membership } =>
                ChatEventView::ConversationCreated(conversation@, creator_membership@),
            ChatEvent::MemberAdded { membership } => ChatEventView::MemberAdded(membership@),
            ChatEvent::MemberRemoved { membership } => ChatEventView::MemberRemoved(membership@),
            ChatEvent::MessagePosted { message } => ChatEventView::MessagePosted(message@),
        }
    }
}

impl Clone for ChatEvent {
    fn clone(&self) -> (r: Self)
        ensures
            r == *self,
    {
        match self {
            ChatEvent::UserCreated { user } => ChatEvent::UserCreated { user: user.clone() },
            ChatEvent::ConversationCreated { conversation, creator_membership } =>
                ChatEvent::ConversationCreated {
                    conversation: conversation.clone(),
                    creator_membership: creator_membership.clone(),
                },
            ChatEvent::MemberAdded { membership } => ChatEvent::MemberAdded {
                membership: membership.clone(),
            },
            ChatEvent::MemberRemoved { membership } => ChatEvent::MemberRemoved {
                membership: membership.clone(),
            },
            ChatEvent::MessagePosted { message } => ChatEvent::MessagePosted {
                message: message.clone(),
            },
        }
    }
}

/// The views of a list of events, in order.
pub open spec fn events_view(events: Seq<ChatEvent>) -> Seq<ChatEventView> {
    events.map_values(|e: ChatEvent| e@)
}

} // verus!
