use vstd::prelude::*;

use crate::decimal::{format_i64, i64_decimal};

verus! {

/// The error returned when a database identifier is not positive.
#[derive(Clone, Copy, Debug, PartialEq, Eq, Structural)]
pub struct InvalidId {
    pub(crate) value: i64,
}

impl InvalidId {
    /// Returns the rejected raw value.
    pub fn value(self) -> (r: i64)
        ensures
            r == self.rejected(),
    {
        self.value
    }

    /// The rejected raw value.
    pub closed spec fn rejected(self) -> i64 {
        self.value
    }

    /// Returns a text description of the error.
    pub fn message(&self) -> (r: String)
        ensures
            r@ == "an ID must be positive, got "@ + i64_decimal(self.rejected()),
    {
        let prefix = String::from_str("an ID must be positive, got ");
        prefix.concat(format_i64(self.value).as_str())
    }
}

/// Identifies a user within one chat installation.
#[derive(Clone, Copy, Debug, PartialEq, Eq, Hash, PartialOrd, Ord, Structural)]
pub struct UserId {
    value: i64,
}

/// Identifies a conversation within one chat installation.
#[derive(Clone, Copy, Debug, PartialEq, Eq, Hash, PartialOrd, Ord, Structural)]
pub struct ConversationId {
    value: i64,
}

/// Identifies a message within one chat installation.
#[derive(Clone, Copy, Debug, PartialEq, Eq, Hash, PartialOrd, Ord, Structural)]
pub struct MessageId {
    value: i64,
}

impl View for UserId {
    type V = i64;

    closed spec fn view(&self) -> i64 {
        self.value
    }
}

impl View for ConversationId {
    type V = i64;

    closed spec fn view(&self) -> i64 {
        self.value
    }
}

impl View for MessageId {
    type V = i64;

    closed spec fn view(&self) -> i64 {
        self.value
    }
}

impl UserId {
    #[verifier::type_invariant]
    spec fn positive(self) -> bool {
        self.value > 0
    }

    /// Creates an ID from its positive database representation.
    pub fn new(value: i64) -> (r: Result<Self, InvalidId>)
        ensures
            value > 0 <==> r is Ok,
            r matches Ok(id) ==> id@ == value,
            r matches Err(e) ==> e.rejected() == value,
    {
        if value <= 0 {
            return Err(InvalidId { value });
        }
        Ok(UserId { value })
    }

    /// Returns the database representation of this ID.
    pub fn get(self) -> (r: i64)
        ensures
            r == self@,
            r > 0,
    {
        proof {
            use_type_invariant(&self);
        }
        self.value
    }

    /// Returns the decimal representation of this ID.
    pub fn to_string(&self) -> (r: String)
        ensures
            r@ == i64_decimal(self@),
    {
        format_i64(self.value)
    }
}

impl ConversationId {
    #[verifier::type_invariant]
    spec fn positive(self) -> bool {
        self.value > 0
    }

    /// Creates an ID from its positive database representation.
    pub fn new(value: i64) -> (r: Result<Self, InvalidId>)
        ensures
            value > 0 <==> r is Ok,
            r matches Ok(id) ==> id@ == value,
            r matches Err(e) ==> e.rejected() == value,
    {
        if value <= 0 {
            return Err(InvalidId { value });
        }
        Ok(ConversationId { value })
    }

    /// Returns the database representation of this ID.
    pub fn get(self) -> (r: i64)
        ensures
            r == self@,
            r > 0,
    {
        proof {
            use_type_invariant(&self);
        }
        self.value
    }

    /// Returns the decimal representation of this ID.
    pub fn to_string(&self) -> (r: String)
        ensures
            r@ == i64_decimal(self@),
    {
        format_i64(self.value)
    }
}

impl MessageId {
    #[verifier::type_invariant]
    spec fn positive(self) -> bool {
        self.value > 0
    }

    /// Creates an ID from its positive database representation.
    pub fn new(value: i64) -> (r: Result<Self, InvalidId>)
        ensures
            value > 0 <==> r is Ok,
            r matches Ok(id) ==> id@ == value,
            r matches Err(e) ==> e.rejected() == value,
    {
        if value <= 0 {
            return Err(InvalidId { value });
        }
        Ok(MessageId { value })
    }

    /// Returns the database representation of this ID.
    pub fn get(self) -> (r: i64)
        ensures
            r == self@,
            r > 0,
    {
        proof {
            use_type_invariant(&self);
        }
        self.value
    }

    /// Returns the decimal representation of this ID.
    pub fn to_string(&self) -> (r: String)
        ensures
            r@ == i64_decimal(self@),
    {
        format_i64(self.value)
    }
}

} // verus!

verus! {

impl TryFrom<i64> for UserId {
    type Error = InvalidId;

    /// Same as [`UserId::new`].
    fn try_from(value: i64) -> Result<Self, Self::Error> {
        UserId::new(value)
    }
}

impl vstd::std_specs::convert::TryFromSpecImpl<i64> for UserId {
    open spec fn obeys_try_from_spec() -> bool {
        true
    }

    closed spec fn try_from_spec(v: i64) -> Result<Self, InvalidId> {
        if v > 0 {
            Ok(UserId { value: v })
        } else {
            Err(InvalidId { value: v })
        }
    }
}

impl From<UserId> for i64 {
    /// Same as [`UserId::get`].
    fn from(id: UserId) -> i64 {
        id.get()
    }
}

impl vstd::std_specs::convert::FromSpecImpl<UserId> for i64 {
    open spec fn obeys_from_spec() -> bool {
        true
    }

    open spec fn from_spec(id: UserId) -> i64 {
        id@
    }
}

} // verus!

verus! {

impl TryFrom<i64> for ConversationId {
    type Error = InvalidId;

    /// Same as [`ConversationId::new`].
    fn try_from(value: i64) -> Result<Self, Self::Error> {
        ConversationId::new(value)
    }
}

impl vstd::std_specs::convert::TryFromSpecImpl<i64> for ConversationId {
    open spec fn obeys_try_from_spec() -> bool {
        true
    }

    closed spec fn try_from_spec(v: i64) -> Result<Self, InvalidId> {
        if v > 0 {
            Ok(ConversationId { value: v })
        } else {
            Err(InvalidId { value: v })
        }
    }
}

impl From<ConversationId> for i64 {
    /// Same as [`ConversationId::get`].
    fn from(id: ConversationId) -> i64 {
        id.get()
    }
}

impl vstd::std_specs::convert::FromSpecImpl<ConversationId> for i64 {
    open spec fn obeys_from_spec() -> bool {
        true
    }

    open spec fn from_spec(id: ConversationId) -> i64 {
        id@
    }
}

} // verus!

verus! {

impl TryFrom<i64> for MessageId {
    type Error = InvalidId;

    /// Same as [`MessageId::new`].
    fn try_from(value: i64) -> Result<Self, Self::Error> {
        MessageId::new(value)
    }
}

impl vstd::std_specs::convert::TryFromSpecImpl<i64> for MessageId {
    open spec fn obeys_try_from_spec() -> bool {
        true
    }

    closed spec fn try_from_spec(v: i64) -> Result<Self, InvalidId> {
        if v > 0 {
            Ok(MessageId { value: v })
        } else {
            Err(InvalidId { value: v })
        }
    }
}

impl From<MessageId> for i64 {
    /// Same as [`MessageId::get`].
    fn from(id: MessageId) -> i64 {
        id.get()
    }
}

impl vstd::std_specs::convert::FromSpecImpl<MessageId> for i64 {
    open spec fn obeys_from_spec() -> bool {
        true
    }

    open spec fn from_spec(id: MessageId) -> i64 {
        id@
    }
}

} // verus!
