//! Responses: the status and the envelope that a request is answered with.

use crate::error::ApiError;
use crate::error::ApiErrorView;
use crate::gateway::CommandView;
use crate::gateway::ReplyView;
use crate::gateway::StoreCommand;
use crate::gateway::StoreReply;
use crate::users::user_views;
use crate::users::UserRow;
use crate::users::UserView;
use crate::workspaces::workspace_views;
use crate::workspaces::WorkspaceRow;
use crate::workspaces::WorkspaceView;
use vstd::prelude::*;

verus! {

/// The resource, or the list of resources, that a successful response carries.
#[derive(Debug, PartialEq, Eq)]
pub enum Payload {
    User(UserRow),
    Users(Vec<UserRow>),
    Workspace(WorkspaceRow),
    Workspaces(Vec<WorkspaceRow>),
}

/// The mathematical value of a [`Payload`].
pub enum PayloadView {
    User(UserView),
    Users(Seq<UserView>),
    Workspace(WorkspaceView),
    Workspaces(Seq<WorkspaceView>),
}

impl View for Payload {
    type V = PayloadView;

    open spec fn view(&self) -> PayloadView {
        match self {
            Payload::User(row) => PayloadView::User(row@),
            Payload::Users(rows) => PayloadView::Users(user_views(rows@)),
            Payload::Workspace(row) => PayloadView::Workspace(row@),
            Payload::Workspaces(rows) => PayloadView::Workspaces(workspace_views(rows@)),
        }
    }
}

/// The uniform wrapper of every response body: a success flag, the data of a
/// success where there is any, the message of a failure.
#[derive(Debug, PartialEq, Eq)]
pub struct Envelope {
    pub success: bool,
    pub data: Option<Payload>,
    pub message: Option<String>,
}

/// The mathematical value of an [`Envelope`].
pub struct EnvelopeView {
    pub success: bool,
    pub data: Option<PayloadView>,
    pub message: Option<Seq<char>>,
}

impl View for Envelope {
    type V = EnvelopeView;

    open spec fn view(&self) -> EnvelopeView {
        EnvelopeView {
            success: self.success,
            data: match self.data {
                Some(payload) => Some(payload@),
                None => None,
            },
            message: match self.message {
                Some(text) => Some(text@),
                None => None,
            },
        }
    }
}

/// The answer to a request: an HTTP status and the envelope.
#[derive(Debug, PartialEq, Eq)]
pub struct Response {
    pub status: u16,
    pub body: Envelope,
}

/// The mathematical value of a [`Response`].
pub struct ResponseView {
    pub status: u16,
    pub body: EnvelopeView,
}

impl View for Response {
    type V = ResponseView;

    open spec fn view(&self) -> ResponseView {
        ResponseView { status: self.status, body: self.body@ }
    }
}

impl ResponseView {
    /// The response to a request that was served.
    pub open spec fn success(status: u16, data: Option<PayloadView>) -> ResponseView {
        ResponseView { status, body: EnvelopeView { success: true, data, message: None } }
    }

    /// The response to a request that was not served: the status of the
    /// failure, no data, and the failure's message.
    pub open spec fn failure(error: ApiErrorView) -> ResponseView {
        ResponseView {
            status: error.status(),
            body: EnvelopeView { success: false, data: None, message: Some(error.message()) },
        }
    }
}

/// The message of the failure that stands for a reply of the wrong shape.
pub open spec fn unexpected_reply() -> Seq<char> {
    "Unexpected reply from the store"@
}

impl CommandView {
    /// The response that a command's reply is answered with.
    ///
    /// A failure of the store is a server error carrying the store's message.
    /// A row returned is a success: created for an insert, ok otherwise.
    /// No row where one workspace was asked for or was to be changed is not
    /// found. A reply that does not fit the command is a server error.
    pub open spec fn response(self, reply: ReplyView) -> ResponseView {
        match reply {
            ReplyView::Failed(text) => ResponseView::failure(ApiErrorView::StoreError(text)),
            ReplyView::Users(rows) => match self {
                CommandView::SelectUsers => ResponseView::success(
                    200,
                    Some(PayloadView::Users(rows)),
                ),
                _ => ResponseView::failure(ApiErrorView::StoreError(unexpected_reply())),
            },
            ReplyView::User(row) => match self {
                CommandView::InsertUser { .. } => ResponseView::success(
                    201,
                    Some(PayloadView::User(row)),
                ),
                _ => ResponseView::failure(ApiErrorView::StoreError(unexpected_reply())),
            },
            ReplyView::Workspaces(rows) => match self {
                CommandView::SelectWorkspaces { .. } => ResponseView::success(
                    200,
                    Some(PayloadView::Workspaces(rows)),
                ),
                _ => ResponseView::failure(ApiErrorView::StoreError(unexpected_reply())),
            },
            ReplyView::Workspace(row) => match self {
                CommandView::SelectWorkspace { .. } => ResponseView::success(
                    200,
                    Some(PayloadView::Workspace(row)),
                ),
                CommandView::InsertWorkspace { .. } => ResponseView::success(
                    201,
                    Some(PayloadView::Workspace(row)),
                ),
                CommandView::UpdateWorkspaceStatus { .. } => ResponseView::success(
                    200,
                    Some(PayloadView::Workspace(row)),
                ),
                _ => ResponseView::failure(ApiErrorView::StoreError(unexpected_reply())),
            },
            ReplyView::NoRow => match self {
                CommandView::SelectWorkspace { .. } => ResponseView::failure(
                    ApiErrorView::NotFound,
                ),
                CommandView::UpdateWorkspaceStatus { .. } => ResponseView::failure(
                    ApiErrorView::NotFound,
                ),
                _ => ResponseView::failure(ApiErrorView::StoreError(unexpected_reply())),
            },
            ReplyView::Done => match self {
                CommandView::DeleteUser { .. } => ResponseView::success(200, None),
                CommandView::DeleteWorkspace { .. } => ResponseView::success(200, None),
                _ => ResponseView::failure(ApiErrorView::StoreError(unexpected_reply())),
            },
        }
    }
}

impl Response {
    /// The response to a request that was served.
    pub fn success(status: u16, data: Option<Payload>) -> (r: Response)
        ensures
            r@ == ResponseView::success(
                status,
                match data {
                    Some(payload) => Some(payload@),
                    None => None,
                },
            ),
    {
        Response { status, body: Envelope { success: true, data, message: None } }
    }

    /// The response to a request that was not served.
    pub fn failure(error: &ApiError) -> (r: Response)
        ensures
            r@ == ResponseView::failure(error@),
    {
        Response {
            status: error.status(),
            body: Envelope { success: false, data: None, message: Some(error.message()) },
        }
    }

    fn unexpected() -> (r: Response)
        ensures
            r@ == ResponseView::failure(ApiErrorView::StoreError(unexpected_reply())),
    {
        Response::failure(&ApiError::StoreError("Unexpected reply from the store".to_owned()))
    }
}

/// Turns the store's reply to a command into the response to the request.
pub fn respond(command: &StoreCommand, reply: StoreReply) -> (r: Response)
    ensures
        r@ == command@.response(reply@),
{
    match reply {
        StoreReply::Failed(text) => Response::failure(&ApiError::StoreError(text)),
        StoreReply::Users(rows) => match command {
            StoreCommand::SelectUsers => Response::success(200, Some(Payload::Users(rows))),
            _ => Response::unexpected(),
        },
        StoreReply::User(row) => match command {
            StoreCommand::InsertUser { .. } => Response::success(201, Some(Payload::User(row))),
            _ => Response::unexpected(),
        },
        StoreReply::Workspaces(rows) => match command {
            StoreCommand::SelectWorkspaces { .. } => Response::success(
                200,
                Some(Payload::Workspaces(rows)),
            ),
            _ => Response::unexpected(),
        },
        StoreReply::Workspace(row) => match command {
            StoreCommand::SelectWorkspace { .. } => Response::success(
                200,
                Some(Payload::Workspace(row)),
            ),
            StoreCommand::InsertWorkspace { .. } => Response::success(
                201,
                Some(Payload::Workspace(row)),
            ),
            StoreCommand::UpdateWorkspaceStatus { .. } => Response::success(
                200,
                Some(Payload::Workspace(row)),
            ),
            _ => Response::unexpected(),
        },
        StoreReply::NoRow => match command {
            StoreCommand::SelectWorkspace { .. } => Response::failure(&ApiError::NotFound),
            StoreCommand::UpdateWorkspaceStatus { .. } => Response::failure(&ApiError::NotFound),
            _ => Response::unexpected(),
        },
        StoreReply::Done => match command {
            StoreCommand::DeleteUser { .. } => Response::success(200, None),
            StoreCommand::DeleteWorkspace { .. } => Response::success(200, None),
            _ => Response::unexpected(),
        },
    }
}

} // verus!
