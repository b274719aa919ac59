//! Users: rows, request bodies and the store commands of the user routes.
//!
//! User routes are not scoped to an owner: no ownership check runs for them.

use crate::error::option_text;
use crate::error::outcome_view;
use crate::error::ApiError;
use crate::error::ApiErrorView;
use crate::error::Field;
use crate::gateway::CommandView;
use crate::gateway::StoreCommand;
use vstd::prelude::*;

verus! {

/// A user as the store holds it. The identifier is assigned by the store.
#[derive(Debug, PartialEq, Eq)]
pub struct UserRow {
    pub id: i32,
    pub username: String,
}

/// The mathematical value of a [`UserRow`].
pub struct UserView {
    pub id: i32,
    pub username: Seq<char>,
}

impl View for UserRow {
    type V = UserView;

    open spec fn view(&self) -> UserView {
        UserView { id: self.id, username: self.username@ }
    }
}

impl Clone for UserRow {
    fn clone(&self) -> (r: Self)
        ensures
            r == *self,
    {
        UserRow { id: self.id, username: self.username.clone() }
    }
}

/// The values of a list of user rows, in the same order.
pub open spec fn user_views(rows: Seq<UserRow>) -> Seq<UserView> {
    Seq::new(rows.len(), |i: int| rows[i]@)
}

/// The body of a request that creates a user.
#[derive(Debug, PartialEq, Eq)]
pub struct CreateUserReq {
    pub username: String,
}

/// The mathematical value of a [`CreateUserReq`].
pub struct CreateUserView {
    pub username: Seq<char>,
}

impl View for CreateUserReq {
    type V = CreateUserView;

    open spec fn view(&self) -> CreateUserView {
        CreateUserView { username: self.username@ }
    }
}

impl CreateUserView {
    /// The body that the submitted fields make, or the validation failure:
    /// the user name is required.
    pub open spec fn from_fields(username: Option<Seq<char>>) -> Result<
        CreateUserView,
        ApiErrorView,
    > {
        match username {
            Some(text) => Ok(CreateUserView { username: text }),
            None => Err(ApiErrorView::ValidationFailure(Field::Username)),
        }
    }
}

impl CreateUserReq {
    /// Validates the fields submitted for a new user.
    pub fn from_fields(username: Option<String>) -> (r: Result<CreateUserReq, ApiError>)
        ensures
            outcome_view(r) == CreateUserView::from_fields(option_text(username)),
    {
        match username {
            Some(text) => Ok(CreateUserReq { username: text }),
            None => Err(ApiError::ValidationFailure(Field::Username)),
        }
    }
}

/// The store command that lists every user.
pub fn get_users() -> (command: StoreCommand)
    ensures
        command@ == CommandView::SelectUsers,
{
    StoreCommand::SelectUsers
}

/// The store command that inserts the user a body describes.
pub fn create_user(body: CreateUserReq) -> (command: StoreCommand)
    ensures
        command@ == (CommandView::InsertUser { username: body@.username }),
{
    StoreCommand::InsertUser { username: body.username }
}

/// The store command that deletes a user by identifier.
pub fn delete_user(user_id: i32) -> (command: StoreCommand)
    ensures
        command@ == (CommandView::DeleteUser { id: user_id }),
{
    StoreCommand::DeleteUser { id: user_id }
}

} // verus!
