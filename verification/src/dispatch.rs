//! From a routed request to the command for the store.
//!
//! The ownership check runs for every workspace request before anything else
//! is looked at, and for no user request. A request that fails the check, or
//! whose body fails validation, yields no command: the store is not touched.

use crate::error::option_text;
use crate::error::outcome_view;
use crate::error::ApiError;
use crate::error::ApiErrorView;
use crate::gateway::CommandView;
use crate::gateway::StoreCommand;
use crate::owner::check_owner_id_middleware;
use crate::owner::header_values;
use crate::owner::owner_of;
use crate::response::respond;
use crate::response::Response;
use crate::response::ResponseView;
use crate::store::MemoryStore;
use crate::store::StoreState;
use crate::users::create_user;
use crate::users::delete_user;
use crate::users::get_users;
use crate::users::CreateUserReq;
use crate::users::CreateUserView;
use crate::workspaces::create_workspace;
use crate::workspaces::delete_workspace;
use crate::workspaces::get_workspace_by_id;
use crate::workspaces::get_workspaces;
use crate::workspaces::update_workspace_status;
use crate::workspaces::CreateWorkspaceReq;
use crate::workspaces::CreateWorkspaceView;
use crate::workspaces::UpdateWorkspaceStatusReq;
use axum::http::HeaderMap;
use vstd::prelude::*;

verus! {

/// A request on the user routes, with the body fields as they were submitted.
#[derive(Debug, PartialEq, Eq)]
pub enum UserRequest {
    List,
    Create { username: Option<String> },
    Delete { id: i32 },
}

/// The mathematical value of a [`UserRequest`].
pub enum UserRequestView {
    List,
    Create { username: Option<Seq<char>> },
    Delete { id: i32 },
}

impl View for UserRequest {
    type V = UserRequestView;

    open spec fn view(&self) -> UserRequestView {
        match self {
            UserRequest::List => UserRequestView::List,
            UserRequest::Create { username } => UserRequestView::Create {
                username: option_text(*username),
            },
            UserRequest::Delete { id } => UserRequestView::Delete { id: *id },
        }
    }
}

/// A request on the workspace routes, with the body fields as they were
/// submitted.
#[derive(Debug, PartialEq, Eq)]
pub enum WorkspaceRequest {
    List,
    Get { id: i32 },
    Create { name: Option<String>, description: Option<String> },
    UpdateStatus { id: i32, status: Option<String> },
    Delete { id: i32 },
}

/// The mathematical value of a [`WorkspaceRequest`].
pub enum WorkspaceRequestView {
    List,
    Get { id: i32 },
    Create { name: Option<Seq<char>>, description: Option<Seq<char>> },
    UpdateStatus { id: i32, status: Option<Seq<char>> },
    Delete { id: i32 },
}

impl View for WorkspaceRequest {
    type V = WorkspaceRequestView;

    open spec fn view(&self) -> WorkspaceRequestView {
        match self {
            WorkspaceRequest::List => WorkspaceRequestView::List,
            WorkspaceRequest::Get { id } => WorkspaceRequestView::Get { id: *id },
            WorkspaceRequest::Create { name, description } => WorkspaceRequestView::Create {
                name: option_text(*name),
                description: option_text(*description),
            },
            WorkspaceRequest::UpdateStatus { id, status } => WorkspaceRequestView::UpdateStatus {
                id: *id,
                status: option_text(*status),
            },
            WorkspaceRequest::Delete { id } => WorkspaceRequestView::Delete { id: *id },
        }
    }
}

/// A request as the router hands it over.
#[derive(Debug, PartialEq, Eq)]
pub enum ApiRequest {
    Users(UserRequest),
    Workspaces(WorkspaceRequest),
}

/// The mathematical value of an [`ApiRequest`].
pub enum ApiRequestView {
    Users(UserRequestView),
    Workspaces(WorkspaceRequestView),
}

impl View for ApiRequest {
    type V = ApiRequestView;

    open spec fn view(&self) -> ApiRequestView {
        match self {
            ApiRequest::Users(request) => ApiRequestView::Users(request@),
            ApiRequest::Workspaces(request) => ApiRequestView::Workspaces(request@),
        }
    }
}

impl UserRequestView {
    /// The command of a user request, or the validation failure.
    pub open spec fn command(self) -> Result<CommandView, ApiErrorView> {
        match self {
            UserRequestView::List => Ok(CommandView::SelectUsers),
            UserRequestView::Create { username } => match CreateUserView::from_fields(username) {
                Ok(body) => Ok(CommandView::InsertUser { username: body.username }),
                Err(error) => Err(error),
            },
            UserRequestView::Delete { id } => Ok(CommandView::DeleteUser { id }),
        }
    }
}

impl WorkspaceRequestView {
    /// The command of a workspace request made by an owner, or the
    /// validation failure.
    pub open spec fn command(self, owner_id: i32) -> Result<CommandView, ApiErrorView> {
        match self {
            WorkspaceRequestView::List => Ok(CommandView::SelectWorkspaces { owner_id }),
            WorkspaceRequestView::Get { id } => Ok(CommandView::SelectWorkspace { id, owner_id }),
            WorkspaceRequestView::Create {
                name,
                description,
            } => match CreateWorkspaceView::from_fields(name, description) {
                Ok(body) => body.command(owner_id),
                Err(error) => Err(error),
            },
            WorkspaceRequestView::UpdateStatus {
                id,
                status,
            } => match UpdateWorkspaceStatusReq::from_fields_spec(status) {
                Ok(body) => Ok(
                    CommandView::UpdateWorkspaceStatus { id, owner_id, status: body.status },
                ),
                Err(error) => Err(error),
            },
            WorkspaceRequestView::Delete { id } => Ok(CommandView::DeleteWorkspace { id, owner_id }),
        }
    }
}

impl ApiRequestView {
    /// The command that a request comes to, given the header fields it
    /// arrived with, or the failure that ends it before the store.
    ///
    /// A workspace request is first checked for its owner; only then is its
    /// body looked at. A user request is not checked for an owner at all.
    pub open spec fn command(self, fields: Map<Seq<char>, Seq<u8>>) -> Result<
        CommandView,
        ApiErrorView,
    > {
        match self {
            ApiRequestView::Users(request) => request.command(),
            ApiRequestView::Workspaces(request) => match owner_of(fields) {
                Ok(owner_id) => request.command(owner_id),
                Err(error) => Err(error),
            },
        }
    }

    /// The whole course of a request against the store: the state of the
    /// store afterwards and the response. A request that comes to no command
    /// leaves the store as it was.
    pub open spec fn served(self, fields: Map<Seq<char>, Seq<u8>>, state: StoreState, now: i64) -> (
        StoreState,
        ResponseView,
    ) {
        match self.command(fields) {
            Ok(command) => {
                let (after, reply) = state.step(command, now);
                (after, command.response(reply))
            },
            Err(error) => (state, ResponseView::failure(error)),
        }
    }
}

fn user_command(request: UserRequest) -> (r: Result<StoreCommand, ApiError>)
    ensures
        outcome_view(r) == request@.command(),
{
    match request {
        UserRequest::List => Ok(get_users()),
        UserRequest::Create { username } => match CreateUserReq::from_fields(username) {
            Ok(body) => Ok(create_user(body)),
            Err(error) => Err(error),
        },
        UserRequest::Delete { id } => Ok(delete_user(id)),
    }
}

fn workspace_command(owner_id: i32, request: WorkspaceRequest) -> (r: Result<
    StoreCommand,
    ApiError,
>)
    ensures
        outcome_view(r) == request@.command(owner_id),
{
    match request {
        WorkspaceRequest::List => Ok(get_workspaces(owner_id)),
        WorkspaceRequest::Get { id } => Ok(get_workspace_by_id(owner_id, id)),
        WorkspaceRequest::Create {
            name,
            description,
        } => match CreateWorkspaceReq::from_fields(name, description) {
            Ok(body) => create_workspace(owner_id, body),
            Err(error) => Err(error),
        },
        WorkspaceRequest::UpdateStatus {
            id,
            status,
        } => match UpdateWorkspaceStatusReq::from_fields(status) {
            Ok(body) => Ok(update_workspace_status(owner_id, id, body)),
            Err(error) => Err(error),
        },
        WorkspaceRequest::Delete { id } => Ok(delete_workspace(owner_id, id)),
    }
}

/// Decides what a request asks of the store, or why it asks nothing.
pub fn dispatch(headers: &HeaderMap, request: ApiRequest) -> (r: Result<StoreCommand, ApiError>)
    ensures
        outcome_view(r) == request@.command(header_values(*headers)),
{
    match request {
        ApiRequest::Users(request) => user_command(request),
        ApiRequest::Workspaces(request) => match check_owner_id_middleware(headers) {
            Ok(owner_id) => workspace_command(owner_id, request),
            Err(error) => Err(error),
        },
    }
}

/// Serves a request from the store held in memory: decides the command, runs
/// it, and answers with the response to its reply.
pub fn serve(store: &mut MemoryStore, headers: &HeaderMap, request: ApiRequest, now: i64) -> (r:
    Response)
    requires
        old(store)@.wf(),
    ensures
        final(store)@.wf(),
        final(store)@ == request@.served(header_values(*headers), old(store)@, now).0,
        r@ == request@.served(header_values(*headers), old(store)@, now).1,
{
    match dispatch(headers, request) {
        Ok(command) => {
            let reply = store.execute(&command, now);
            respond(&command, reply)
        },
        Err(error) => Response::failure(&error),
    }
}

} // verus!
