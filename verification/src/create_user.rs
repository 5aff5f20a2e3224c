use vstd::prelude::*;

use crate::chat::Chat;
use crate::event::{events_view, ChatEvent, ChatEventView};
use crate::user::{display_name_check, DisplayName, DisplayNameError, NewUser, User, UserView};

verus! {

/// Requests creation of a chat user.
#[derive(Clone, Debug, PartialEq, Eq)]
pub struct CreateUser {
    display_name: String,
}

impl View for CreateUser {
    type V = Seq<char>;

    closed spec fn view(&self) -> Seq<char> {
        self.display_name@
    }
}

impl CreateUser {
    /// Creates a user command.
    pub fn new(display_name: &str) -> (r: Self)
        ensures
            r@ == display_name@,
    {
        CreateUser { display_name: display_name.to_owned() }
    }

    /// Returns the unvalidated display name.
    pub fn display_name(&self) -> (r: &str)
        ensures
            r@ == self@,
    {
        self.display_name.as_str()
    }
}

/// Describes why user creation failed.
#[derive(Clone, Copy, Debug, PartialEq, Eq, Structural)]
pub enum CreateUserError {
    /// The supplied display name is invalid.
    InvalidDisplayName(DisplayNameError),
    /// The store returned a user inconsistent with the request.
    InvalidStoreResult,
    /// Persistence was temporarily unavailable.
    StoreUnavailable,
}

impl From<DisplayNameError> for CreateUserError {
    fn from(error: DisplayNameError) -> (r: Self) {
        CreateUserError::InvalidDisplayName(error)
    }
}

impl vstd::std_specs::convert::FromSpecImpl<DisplayNameError> for CreateUserError {
    open spec fn obeys_from_spec() -> bool {
        true
    }

    open spec fn from_spec(v: DisplayNameError) -> Self {
        CreateUserError::InvalidDisplayName(v)
    }
}

/// The created user and the events of a successful creation.
pub struct CreateUserResultView {
    pub user: UserView,
    pub events: Seq<ChatEventView>,
}

/// The result of creating a user.
#[derive(Clone, Debug, PartialEq, Eq)]
pub struct CreateUserResult {
    user: User,
    events: Vec<ChatEvent>,
}

impl View for CreateUserResult {
    type V = CreateUserResultView;

    closed spec fn view(&self) -> CreateUserResultView {
        CreateUserResultView { user: self.user@, events: events_view(self.events@) }
    }
}

impl CreateUserResult {
    fn new(user: User) -> (r: Self)
        ensures
            r@.user == user@,
            r@.events == seq![ChatEventView::UserCreated(user@)],
    {
        let events = vec![ChatEvent::UserCreated { user: user.clone() }];
        let r = CreateUserResult { user, events };
        assert(r@.events =~= seq![ChatEventView::UserCreated(user@)]);
        r
    }

    /// Returns the created user.
    pub fn user(&self) -> (r: &User)
        ensures
            r@ == self@.user,
    {
        &self.user
    }

    /// Returns the events produced after persistence succeeded.
    pub fn events(&self) -> (r: &[ChatEvent])
        ensures
            events_view(r@) == self@.events,
    {
        self.events.as_slice()
    }

    /// Consumes the result and returns its parts.
    pub fn into_parts(self) -> (r: (User, Vec<ChatEvent>))
        ensures
            r.0@ == self@.user,
            events_view(r.1@) == self@.events,
    {
        (self.user, self.events)
    }
}

impl<S> Chat<S> {
    /// Validates a create-user command into the new user handed to the store.
    pub fn create_user_request(&self, command: &CreateUser) -> (r: Result<NewUser, CreateUserError>)
        ensures
            match display_name_check(command@) {
                Ok(name) => r matches Ok(request) && request@ == name,
                Err(e) => r == Err::<NewUser, CreateUserError>(
                    CreateUserError::InvalidDisplayName(e),
                ),
            },
    {
        match DisplayName::parse(command.display_name.as_str()) {
            Ok(name) => Ok(NewUser::new(name)),
            Err(e) => Err(CreateUserError::InvalidDisplayName(e)),
        }
    }

    /// Checks what the store answered for `request`: a store error is passed
    /// on, a user with another display name is an invalid store result, and
    /// otherwise the user is returned with one `UserCreated` event.
    pub fn create_user_outcome(&self, request: &NewUser, stored: Result<User, CreateUserError>) -> (r:
        Result<CreateUserResult, CreateUserError>)
        ensures
            match stored {
                Err(e) => r == Err::<CreateUserResult, CreateUserError>(e),
                Ok(user) => if user@.display_name != request@ {
                    r == Err::<CreateUserResult, CreateUserError>(
                        CreateUserError::InvalidStoreResult,
                    )
                } else {
                    r matches Ok(result) && result@.user == user@ && result@.events == seq![
                        ChatEventView::UserCreated(user@),
                    ]
                },
            },
    {
        let user = match stored {
            Ok(user) => user,
            Err(e) => return Err(e),
        };
        if !user.display_name().same_text(request.display_name()) {
            return Err(CreateUserError::InvalidStoreResult);
        }
        Ok(CreateUserResult::new(user))
    }
}

} // verus!
