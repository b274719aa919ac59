//! Workspaces: rows, request bodies and the store commands of the workspace
//! routes.
//!
//! Every command made here carries the owner taken from the request's
//! context, so that the store filters by it: a workspace is visible to, and
//! can be changed by, its owner alone.

use crate::error::option_text;
use crate::error::outcome_view;
use crate::error::ApiError;
use crate::error::ApiErrorView;
use crate::error::Field;
use crate::gateway::CommandView;
use crate::gateway::StoreCommand;
use crate::status::Status;
use vstd::prelude::*;

verus! {

/// A workspace as the store holds it. The identifier and both timestamps are
/// assigned by the store; timestamps count microseconds since the Unix epoch.
#[derive(Debug, PartialEq, Eq)]
pub struct WorkspaceRow {
    pub id: i32,
    pub name: String,
    pub description: String,
    pub create_time: i64,
    pub update_time: i64,
    pub status: Status,
    pub owner_id: i32,
}

/// The mathematical value of a [`WorkspaceRow`].
pub struct WorkspaceView {
    pub id: i32,
    pub name: Seq<char>,
    pub description: Seq<char>,
    pub create_time: i64,
    pub update_time: i64,
    pub status: Status,
    pub owner_id: i32,
}

impl View for WorkspaceRow {
    type V = WorkspaceView;

    open spec fn view(&self) -> WorkspaceView {
        WorkspaceView {
            id: self.id,
            name: self.name@,
            description: self.description@,
            create_time: self.create_time,
            update_time: self.update_time,
            status: self.status,
            owner_id: self.owner_id,
        }
    }
}

impl Clone for WorkspaceRow {
    fn clone(&self) -> (r: Self)
        ensures
            r == *self,
    {
        WorkspaceRow {
            id: self.id,
            name: self.name.clone(),
            description: self.description.clone(),
            create_time: self.create_time,
            update_time: self.update_time,
            status: self.status,
            owner_id: self.owner_id,
        }
    }
}

/// The values of a list of workspace rows, in the same order.
pub open spec fn workspace_views(rows: Seq<WorkspaceRow>) -> Seq<WorkspaceView> {
    Seq::new(rows.len(), |i: int| rows[i]@)
}

/// The body of a request that creates a workspace.
#[derive(Debug, PartialEq, Eq)]
pub struct CreateWorkspaceReq {
    pub name: String,
    pub description: String,
}

/// The mathematical value of a [`CreateWorkspaceReq`].
pub struct CreateWorkspaceView {
    pub name: Seq<char>,
    pub description: Seq<char>,
}

impl View for CreateWorkspaceReq {
    type V = CreateWorkspaceView;

    open spec fn view(&self) -> CreateWorkspaceView {
        CreateWorkspaceView { name: self.name@, description: self.description@ }
    }
}

impl CreateWorkspaceView {
    /// What validation objects to in the body, if anything: the name and the
    /// description must both be non-empty. The name is looked at first.
    pub open spec fn objection(self) -> Option<Field> {
        if self.name.len() == 0 {
            Some(Field::Name)
        } else if self.description.len() == 0 {
            Some(Field::Description)
        } else {
            None
        }
    }

    /// The body that the submitted fields make, or the validation failure:
    /// both fields are required and must be non-empty. An absent field is
    /// objected to as an empty one is.
    pub open spec fn from_fields(
        name: Option<Seq<char>>,
        description: Option<Seq<char>>,
    ) -> Result<CreateWorkspaceView, ApiErrorView> {
        let body = CreateWorkspaceView {
            name: match name {
                Some(text) => text,
                None => Seq::empty(),
            },
            description: match description {
                Some(text) => text,
                None => Seq::empty(),
            },
        };
        match body.objection() {
            Some(field) => Err(ApiErrorView::ValidationFailure(field)),
            None => Ok(body),
        }
    }

    /// The store command of a create request, or the validation failure that
    /// stops it before the store is touched. The new workspace starts out
    /// active whatever the request says, and belongs to the owner of the
    /// request.
    pub open spec fn command(self, owner_id: i32) -> Result<CommandView, ApiErrorView> {
        match self.objection() {
            Some(field) => Err(ApiErrorView::ValidationFailure(field)),
            None => Ok(
                CommandView::InsertWorkspace {
                    name: self.name,
                    description: self.description,
                    status: Status::Active,
                    owner_id,
                },
            ),
        }
    }
}

impl CreateWorkspaceReq {
    /// Validates the fields submitted for a new workspace.
    pub fn from_fields(name: Option<String>, description: Option<String>) -> (r: Result<
        CreateWorkspaceReq,
        ApiError,
    >)
        ensures
            outcome_view(r) == CreateWorkspaceView::from_fields(
                option_text(name),
                option_text(description),
            ),
    {
        let name_text = match name {
            Some(text) => text,
            None => String::new(),
        };
        if name_text.as_str().is_empty() {
            return Err(ApiError::ValidationFailure(Field::Name));
        }
        let description_text = match description {
            Some(text) => text,
            None => String::new(),
        };
        if description_text.as_str().is_empty() {
            return Err(ApiError::ValidationFailure(Field::Description));
        }
        Ok(CreateWorkspaceReq { name: name_text, description: description_text })
    }
}

/// The body of a request that changes the status of a workspace.
#[derive(Clone, Copy, Debug, PartialEq, Eq, Structural)]
pub struct UpdateWorkspaceStatusReq {
    pub status: Status,
}

impl View for UpdateWorkspaceStatusReq {
    type V = UpdateWorkspaceStatusReq;

    open spec fn view(&self) -> UpdateWorkspaceStatusReq {
        *self
    }
}

impl UpdateWorkspaceStatusReq {
    /// The body that the submitted field makes, or the validation failure:
    /// the status is required and must be one of the four status names.
    pub open spec fn from_fields_spec(status: Option<Seq<char>>) -> Result<
        UpdateWorkspaceStatusReq,
        ApiErrorView,
    > {
        match status {
            Some(token) => match Status::from_name_spec(token) {
                Some(status) => Ok(UpdateWorkspaceStatusReq { status }),
                None => Err(ApiErrorView::ValidationFailure(Field::Status)),
            },
            None => Err(ApiErrorView::ValidationFailure(Field::Status)),
        }
    }

    /// Validates the field submitted for a status change.
    pub fn from_fields(status: Option<String>) -> (r: Result<UpdateWorkspaceStatusReq, ApiError>)
        ensures
            outcome_view(r) == Self::from_fields_spec(option_text(status)),
    {
        match status {
            Some(token) => match Status::from_name(token.as_str()) {
                Some(status) => Ok(UpdateWorkspaceStatusReq { status }),
                None => Err(ApiError::ValidationFailure(Field::Status)),
            },
            None => Err(ApiError::ValidationFailure(Field::Status)),
        }
    }
}

/// The store command that lists the workspaces of an owner.
pub fn get_workspaces(owner_id: i32) -> (command: StoreCommand)
    ensures
        command@ == (CommandView::SelectWorkspaces { owner_id }),
{
    StoreCommand::SelectWorkspaces { owner_id }
}

/// The store command that fetches one workspace of an owner by identifier.
pub fn get_workspace_by_id(owner_id: i32, workspace_id: i32) -> (command: StoreCommand)
    ensures
        command@ == (CommandView::SelectWorkspace { id: workspace_id, owner_id }),
{
    StoreCommand::SelectWorkspace { id: workspace_id, owner_id }
}

/// The store command that creates the workspace a body describes for an
/// owner, or the validation failure that stops the request before the store is
/// touched.
pub fn create_workspace(owner_id: i32, body: CreateWorkspaceReq) -> (r: Result<
    StoreCommand,
    ApiError,
>)
    ensures
        outcome_view(r) == body@.command(owner_id),
{
    if body.name.as_str().is_empty() {
        return Err(ApiError::ValidationFailure(Field::Name));
    }
    if body.description.as_str().is_empty() {
        return Err(ApiError::ValidationFailure(Field::Description));
    }
    Ok(
        StoreCommand::InsertWorkspace {
            name: body.name,
            description: body.description,
            status: Status::Active,
            owner_id,
        },
    )
}

/// The store command that sets the status of one workspace of an owner.
pub fn update_workspace_status(
    owner_id: i32,
    workspace_id: i32,
    body: UpdateWorkspaceStatusReq,
) -> (command: StoreCommand)
    ensures
        command@ == (CommandView::UpdateWorkspaceStatus {
            id: workspace_id,
            owner_id,
            status: body.status,
        }),
{
    StoreCommand::UpdateWorkspaceStatus { id: workspace_id, owner_id, status: body.status }
}

/// The store command that deletes one workspace of an owner.
pub fn delete_workspace(owner_id: i32, workspace_id: i32) -> (command: StoreCommand)
    ensures
        command@ == (CommandView::DeleteWorkspace { id: workspace_id, owner_id }),
{
    StoreCommand::DeleteWorkspace { id: workspace_id, owner_id }
}

} // verus!
