//! The store gateway's contract: the commands that handlers hand to the store
//! and the replies that come back.
//!
//! A command is a fixed statement with numbered placeholders and a list of
//! values bound to them. No value ever becomes part of the statement text.

use crate::status::Status;
use crate::users::user_views;
use crate::users::UserRow;
use crate::users::UserView;
use crate::workspaces::workspace_views;
use crate::workspaces::WorkspaceRow;
use crate::workspaces::WorkspaceView;
use vstd::prelude::*;

verus! {

/// A value bound to a placeholder of a statement.
#[derive(Debug, PartialEq, Eq)]
pub enum SqlValue {
    Int(i32),
    Text(String),
    Status(Status),
}

/// The mathematical value of a [`SqlValue`].
pub enum SqlValueView {
    Int(i32),
    Text(Seq<char>),
    Status(Status),
}

impl View for SqlValue {
    type V = SqlValueView;

    open spec fn view(&self) -> SqlValueView {
        match self {
            SqlValue::Int(number) => SqlValueView::Int(*number),
            SqlValue::Text(text) => SqlValueView::Text(text@),
            SqlValue::Status(status) => SqlValueView::Status(*status),
        }
    }
}

/// The values of a list of bound values, in the same order.
pub open spec fn sql_views(values: Seq<SqlValue>) -> Seq<SqlValueView> {
    Seq::new(values.len(), |i: int| values[i]@)
}

/// One call on the store gateway.
#[derive(Debug, PartialEq, Eq)]
pub enum StoreCommand {
    /// Select every user.
    SelectUsers,
    /// Insert a user and return the new row.
    InsertUser { username: String },
    /// Delete the user with an identifier.
    DeleteUser { id: i32 },
    /// Select the workspaces of an owner.
    SelectWorkspaces { owner_id: i32 },
    /// Select the workspace with an identifier among those of an owner.
    SelectWorkspace { id: i32, owner_id: i32 },
    /// Insert a workspace and return the new row.
    InsertWorkspace { name: String, description: String, status: Status, owner_id: i32 },
    /// Set the status of the workspace with an identifier among those of an
    /// owner, refresh its update time and return the changed row.
    UpdateWorkspaceStatus { id: i32, owner_id: i32, status: Status },
    /// Delete the workspace with an identifier among those of an owner.
    DeleteWorkspace { id: i32, owner_id: i32 },
}

/// The mathematical value of a [`StoreCommand`].
pub enum CommandView {
    SelectUsers,
    InsertUser { username: Seq<char> },
    DeleteUser { id: i32 },
    SelectWorkspaces { owner_id: i32 },
    SelectWorkspace { id: i32, owner_id: i32 },
    InsertWorkspace { name: Seq<char>, description: Seq<char>, status: Status, owner_id: i32 },
    UpdateWorkspaceStatus { id: i32, owner_id: i32, status: Status },
    DeleteWorkspace { id: i32, owner_id: i32 },
}

impl View for StoreCommand {
    type V = CommandView;

    open spec fn view(&self) -> CommandView {
        match self {
            StoreCommand::SelectUsers => CommandView::SelectUsers,
            StoreCommand::InsertUser { username } => CommandView::InsertUser {
                username: username@,
            },
            StoreCommand::DeleteUser { id } => CommandView::DeleteUser { id: *id },
            StoreCommand::SelectWorkspaces { owner_id } => CommandView::SelectWorkspaces {
                owner_id: *owner_id,
            },
            StoreCommand::SelectWorkspace { id, owner_id } => CommandView::SelectWorkspace {
                id: *id,
                owner_id: *owner_id,
            },
            StoreCommand::InsertWorkspace {
                name,
                description,
                status,
                owner_id,
            } => CommandView::InsertWorkspace {
                name: name@,
                description: description@,
                status: *status,
                owner_id: *owner_id,
            },
            StoreCommand::UpdateWorkspaceStatus {
                id,
                owner_id,
                status,
            } => CommandView::UpdateWorkspaceStatus {
                id: *id,
                owner_id: *owner_id,
                status: *status,
            },
            StoreCommand::DeleteWorkspace { id, owner_id } => CommandView::DeleteWorkspace {
                id: *id,
                owner_id: *owner_id,
            },
        }
    }
}

impl CommandView {
    /// The owner to whose workspaces the command is confined. Commands on
    /// users are confined to no owner.
    pub open spec fn owner(self) -> Option<i32> {
        match self {
            CommandView::SelectUsers => None,
            CommandView::InsertUser { .. } => None,
            CommandView::DeleteUser { .. } => None,
            CommandView::SelectWorkspaces { owner_id } => Some(owner_id),
            CommandView::SelectWorkspace { owner_id, .. } => Some(owner_id),
            CommandView::InsertWorkspace { owner_id, .. } => Some(owner_id),
            CommandView::UpdateWorkspaceStatus { owner_id, .. } => Some(owner_id),
            CommandView::DeleteWorkspace { owner_id, .. } => Some(owner_id),
        }
    }

    /// The statement text of the command. It depends on the kind of command
    /// alone, never on the values that the command carries.
    pub open spec fn statement(self) -> Seq<char> {
        match self {
            CommandView::SelectUsers => "SELECT * FROM users"@,
            CommandView::InsertUser { .. } => "INSERT INTO users(username) VALUES ($1) RETURNING *"@,
            CommandView::DeleteUser { .. } => "DELETE FROM users WHERE id = $1"@,
            CommandView::SelectWorkspaces { .. } => "SELECT * FROM workspaces WHERE owner_id = $1"@,
            CommandView::SelectWorkspace {
                ..
            } => "SELECT * FROM workspaces WHERE id = $1 AND owner_id = $2"@,
            CommandView::InsertWorkspace {
                ..
            } => "INSERT INTO workspaces(name, description, status, owner_id) VALUES ($1, $2, $3, $4) RETURNING *"@,
            CommandView::UpdateWorkspaceStatus {
                ..
            } => "UPDATE workspaces SET status = $1, update_time = now() WHERE id = $2 AND owner_id = $3 RETURNING *"@,
            CommandView::DeleteWorkspace {
                ..
            } => "DELETE FROM workspaces WHERE id = $1 AND owner_id = $2"@,
        }
    }

    /// The values bound to the placeholders of the statement, the value for
    /// the first placeholder first.
    pub open spec fn binds(self) -> Seq<SqlValueView> {
        match self {
            CommandView::SelectUsers => seq![],
            CommandView::InsertUser { username } => seq![SqlValueView::Text(username)],
            CommandView::DeleteUser { id } => seq![SqlValueView::Int(id)],
            CommandView::SelectWorkspaces { owner_id } => seq![SqlValueView::Int(owner_id)],
            CommandView::SelectWorkspace { id, owner_id } => seq![
                SqlValueView::Int(id),
                SqlValueView::Int(owner_id),
            ],
            CommandView::InsertWorkspace { name, description, status, owner_id } => seq![
                SqlValueView::Text(name),
                SqlValueView::Text(description),
                SqlValueView::Status(status),
                SqlValueView::Int(owner_id),
            ],
            CommandView::UpdateWorkspaceStatus { id, owner_id, status } => seq![
                SqlValueView::Status(status),
                SqlValueView::Int(id),
                SqlValueView::Int(owner_id),
            ],
            CommandView::DeleteWorkspace { id, owner_id } => seq![
                SqlValueView::Int(id),
                SqlValueView::Int(owner_id),
            ],
        }
    }
}

impl StoreCommand {
    /// The statement text to hand to the store.
    pub fn statement(&self) -> (r: &'static str)
        ensures
            r@ == self@.statement(),
    {
        match self {
            StoreCommand::SelectUsers => "SELECT * FROM users",
            StoreCommand::InsertUser { .. } => "INSERT INTO users(username) VALUES ($1) RETURNING *",
            StoreCommand::DeleteUser { .. } => "DELETE FROM users WHERE id = $1",
            StoreCommand::SelectWorkspaces { .. } => "SELECT * FROM workspaces WHERE owner_id = $1",
            StoreCommand::SelectWorkspace {
                ..
            } => "SELECT * FROM workspaces WHERE id = $1 AND owner_id = $2",
            StoreCommand::InsertWorkspace {
                ..
            } => "INSERT INTO workspaces(name, description, status, owner_id) VALUES ($1, $2, $3, $4) RETURNING *",
            StoreCommand::UpdateWorkspaceStatus {
                ..
            } => "UPDATE workspaces SET status = $1, update_time = now() WHERE id = $2 AND owner_id = $3 RETURNING *",
            StoreCommand::DeleteWorkspace {
                ..
            } => "DELETE FROM workspaces WHERE id = $1 AND owner_id = $2",
        }
    }

    /// The values to bind to the statement's placeholders, in order.
    pub fn binds(&self) -> (r: Vec<SqlValue>)
        ensures
            sql_views(r@) == self@.binds(),
    {
        let mut values: Vec<SqlValue> = Vec::new();
        match self {
            StoreCommand::SelectUsers => {},
            StoreCommand::InsertUser { username } => {
                values.push(SqlValue::Text(username.clone()));
            },
            StoreCommand::DeleteUser { id } => {
                values.push(SqlValue::Int(*id));
            },
            StoreCommand::SelectWorkspaces { owner_id } => {
                values.push(SqlValue::Int(*owner_id));
            },
            StoreCommand::SelectWorkspace { id, owner_id } => {
                values.push(SqlValue::Int(*id));
                values.push(SqlValue::Int(*owner_id));
            },
            StoreCommand::InsertWorkspace { name, description, status, owner_id } => {
                values.push(SqlValue::Text(name.clone()));
                values.push(SqlValue::Text(description.clone()));
                values.push(SqlValue::Status(*status));
                values.push(SqlValue::Int(*owner_id));
            },
            StoreCommand::UpdateWorkspaceStatus { id, owner_id, status } => {
                values.push(SqlValue::Status(*status));
                values.push(SqlValue::Int(*id));
                values.push(SqlValue::Int(*owner_id));
            },
            StoreCommand::DeleteWorkspace { id, owner_id } => {
                values.push(SqlValue::Int(*id));
                values.push(SqlValue::Int(*owner_id));
            },
        }
        values
    }
}

/// What the store answers to a command.
#[derive(Debug, PartialEq, Eq)]
pub enum StoreReply {
    /// The users selected, in the store's order.
    Users(Vec<UserRow>),
    /// The one user row that the command returned.
    User(UserRow),
    /// The workspaces selected, in the store's order.
    Workspaces(Vec<WorkspaceRow>),
    /// The one workspace row that the command returned.
    Workspace(WorkspaceRow),
    /// The command matched no row.
    NoRow,
    /// The command ran and returns nothing.
    Done,
    /// The store failed; the text is its message.
    Failed(String),
}

/// The mathematical value of a [`StoreReply`].
pub enum ReplyView {
    Users(Seq<UserView>),
    User(UserView),
    Workspaces(Seq<WorkspaceView>),
    Workspace(WorkspaceView),
    NoRow,
    Done,
    Failed(Seq<char>),
}

impl View for StoreReply {
    type V = ReplyView;

    open spec fn view(&self) -> ReplyView {
        match self {
            StoreReply::Users(rows) => ReplyView::Users(user_views(rows@)),
            StoreReply::User(row) => ReplyView::User(row@),
            StoreReply::Workspaces(rows) => ReplyView::Workspaces(workspace_views(rows@)),
            StoreReply::Workspace(row) => ReplyView::Workspace(row@),
            StoreReply::NoRow => ReplyView::NoRow,
            StoreReply::Done => ReplyView::Done,
            StoreReply::Failed(text) => ReplyView::Failed(text@),
        }
    }
}

} // verus!
