//! What holds of the service whatever the requests and whatever the store
//! holds: isolation between owners, and what a create and an update leave
//! behind.

use crate::dispatch::ApiRequestView;
use crate::dispatch::WorkspaceRequestView;
use crate::error::ApiErrorView;
use crate::error::Field;
use crate::gateway::CommandView;
use crate::owner::owner_of;
use crate::owner::OWNER_HEADER;
use crate::response::PayloadView;
use crate::response::ResponseView;
use crate::status::Status;
use crate::store::owned_by;
use crate::store::StoreState;
use crate::workspaces::WorkspaceView;
use vstd::prelude::*;

verus! {

/// A listing shows the workspaces of the owner who asks and no others: every
/// row listed belongs to that owner, every row of that owner in the store is
/// listed, and the listing changes nothing.
pub proof fn law_listing_shows_only_own_workspaces(
    fields: Map<Seq<char>, Seq<u8>>,
    state: StoreState,
    owner_id: i32,
    now: i64,
)
    requires
        owner_of(fields) == Ok::<i32, ApiErrorView>(owner_id),
    ensures
        ({
            let request = ApiRequestView::Workspaces(WorkspaceRequestView::List);
            let (after, response) = request.served(fields, state, now);
            let rows = state.workspaces.filter(owned_by(owner_id));
            &&& after == state
            &&& response == ResponseView::success(200, Some(PayloadView::Workspaces(rows)))
            &&& forall|i: int| 0 <= i < rows.len() ==> (#[trigger] rows[i]).owner_id == owner_id
            &&& forall|i: int|
                0 <= i < rows.len() ==> state.workspaces.contains(#[trigger] rows[i])
            &&& forall|i: int|
                0 <= i < state.workspaces.len() && state.workspaces[i].owner_id == owner_id
                    ==> rows.contains(#[trigger] state.workspaces[i])
        }),
{
    let rows = state.workspaces.filter(owned_by(owner_id));
    assert forall|i: int| 0 <= i < rows.len() implies (#[trigger] rows[i]).owner_id
        == owner_id by {
        state.workspaces.lemma_filter_pred(owned_by(owner_id), i);
    }
    assert forall|i: int| 0 <= i < rows.len() implies state.workspaces.contains(
        #[trigger] rows[i],
    ) by {
        state.workspaces.lemma_filter_contains_rev(owned_by(owner_id), rows[i]);
    }
    assert forall|i: int|
        0 <= i < state.workspaces.len() && state.workspaces[i].owner_id
            == owner_id implies rows.contains(#[trigger] state.workspaces[i]) by {
        state.workspaces.lemma_filter_contains(owned_by(owner_id), i);
    }
}

/// A workspace request without the owner header is refused as a client error
/// whatever it asks, and the store is left as it was.
pub proof fn law_missing_owner_header_is_refused(
    fields: Map<Seq<char>, Seq<u8>>,
    request: WorkspaceRequestView,
    state: StoreState,
    now: i64,
)
    requires
        !fields.contains_key(OWNER_HEADER@),
    ensures
        ApiRequestView::Workspaces(request).command(fields) == Err::<CommandView, ApiErrorView>(
            ApiErrorView::MissingOwnerHeader,
        ),
        ApiRequestView::Workspaces(request).served(fields, state, now) == (
            state,
            ResponseView::failure(ApiErrorView::MissingOwnerHeader),
        ),
        ResponseView::failure(ApiErrorView::MissingOwnerHeader).status == 400,
        !ResponseView::failure(ApiErrorView::MissingOwnerHeader).body.success,
{
}

/// A workspace request whose owner header names no owner is refused as a
/// client error whatever it asks, and the store is left as it was.
pub proof fn law_invalid_owner_header_is_refused(
    fields: Map<Seq<char>, Seq<u8>>,
    request: WorkspaceRequestView,
    state: StoreState,
    now: i64,
)
    requires
        owner_of(fields) == Err::<i32, ApiErrorView>(ApiErrorView::InvalidOwnerHeader),
    ensures
        ApiRequestView::Workspaces(request).served(fields, state, now) == (
            state,
            ResponseView::failure(ApiErrorView::InvalidOwnerHeader),
        ),
        ResponseView::failure(ApiErrorView::InvalidOwnerHeader).status == 400,
{
}

/// A create request that lacks the name, or carries an empty one, is
/// unprocessable, and no row is inserted.
pub proof fn law_create_without_name_inserts_nothing(
    fields: Map<Seq<char>, Seq<u8>>,
    name: Option<Seq<char>>,
    description: Option<Seq<char>>,
    state: StoreState,
    now: i64,
)
    requires
        owner_of(fields) is Ok,
        name is None || name == Some(Seq::<char>::empty()),
    ensures
        ({
            let request = ApiRequestView::Workspaces(
                WorkspaceRequestView::Create { name, description },
            );
            let (after, response) = request.served(fields, state, now);
            &&& after == state
            &&& response == ResponseView::failure(ApiErrorView::ValidationFailure(Field::Name))
            &&& response.status == 422
        }),
{
}

/// A workspace is created active and in the name of the owner who asks,
/// with the name and description submitted, whatever else the request says.
/// Unless the store has run out of identifiers the request succeeds.
pub proof fn law_created_workspace_is_active_and_owned(
    fields: Map<Seq<char>, Seq<u8>>,
    name: Seq<char>,
    description: Seq<char>,
    state: StoreState,
    owner_id: i32,
    now: i64,
)
    requires
        owner_of(fields) == Ok::<i32, ApiErrorView>(owner_id),
        name.len() > 0,
        description.len() > 0,
        state.next_workspace_id < i32::MAX,
    ensures
        ({
            let request = ApiRequestView::Workspaces(
                WorkspaceRequestView::Create { name: Some(name), description: Some(description) },
            );
            let (after, response) = request.served(fields, state, now);
            &&& response.status == 201
            &&& response.body.success
            &&& response.body.data matches Some(PayloadView::Workspace(row))
            &&& row.owner_id == owner_id
            &&& row.status == Status::Active
            &&& row.name == name
            &&& row.description == description
            &&& row.create_time == now
            &&& row.update_time == now
            &&& after.workspaces == state.workspaces.push(row)
        }),
{
}

/// A workspace that was created is read back by its owner as it was
/// returned: same identifier, name, description and owner.
pub proof fn law_created_workspace_is_read_back(
    fields: Map<Seq<char>, Seq<u8>>,
    name: Option<Seq<char>>,
    description: Option<Seq<char>>,
    state: StoreState,
    now: i64,
    later: i64,
)
    requires
        state.wf(),
    ensures
        ({
            let create = ApiRequestView::Workspaces(
                WorkspaceRequestView::Create { name, description },
            );
            let (after, created) = create.served(fields, state, now);
            created.body.data matches Some(PayloadView::Workspace(row)) ==> {
                let get = ApiRequestView::Workspaces(WorkspaceRequestView::Get { id: row.id });
                get.served(fields, after, later) == (
                    after,
                    ResponseView::success(200, Some(PayloadView::Workspace(row))),
                )
            }
        }),
{
    let create = ApiRequestView::Workspaces(WorkspaceRequestView::Create { name, description });
    let (after, created) = create.served(fields, state, now);
    if let Some(PayloadView::Workspace(row)) = created.body.data {
        // The new row sits last, and no earlier row has its identifier.
        let last = state.workspaces.len() as int;
        assert(after.visible_at(last, row.id, owner_of(fields)->Ok_0));
    }
}

/// A status change asked for by anyone but the owner of the workspace finds
/// no row: it is answered as not found and changes nothing.
pub proof fn law_cross_owner_update_is_not_found(
    fields: Map<Seq<char>, Seq<u8>>,
    state: StoreState,
    at: int,
    status: Status,
    now: i64,
)
    requires
        state.wf(),
        0 <= at < state.workspaces.len(),
        owner_of(fields) is Ok,
        owner_of(fields) != Ok::<i32, ApiErrorView>(state.workspaces[at].owner_id),
    ensures
        ({
            let request = ApiRequestView::Workspaces(
                WorkspaceRequestView::UpdateStatus {
                    id: state.workspaces[at].id,
                    status: Some(status.name_spec()),
                },
            );
            let (after, response) = request.served(fields, state, now);
            &&& after == state
            &&& response == ResponseView::failure(ApiErrorView::NotFound)
            &&& response.status == 404
        }),
{
    Status::lemma_name_round_trip(status);
}

/// Whatever an owner asks of the store, the workspaces of every other owner
/// stay as they are: none is changed, none is removed, none is added.
pub proof fn law_commands_leave_other_owners_alone(
    state: StoreState,
    command: CommandView,
    owner_id: i32,
    now: i64,
)
    requires
        state.wf(),
        command.owner() == Some(owner_id),
    ensures
        ({
            let after = state.step(command, now).0;
            &&& forall|i: int|
                0 <= i < state.workspaces.len() && state.workspaces[i].owner_id != owner_id
                    ==> after.workspaces.contains(#[trigger] state.workspaces[i])
            &&& forall|j: int|
                0 <= j < after.workspaces.len() && after.workspaces[j].owner_id != owner_id
                    ==> state.workspaces.contains(#[trigger] after.workspaces[j])
        }),
{
    let after = state.step(command, now).0;
    assert forall|i: int|
        0 <= i < state.workspaces.len() && state.workspaces[i].owner_id
            != owner_id implies after.workspaces.contains(#[trigger] state.workspaces[i]) by {
        // Where the row stands after the command.
        let k = match command {
            CommandView::DeleteWorkspace { id, .. } if state.visible(id, owner_id) && i
                > state.position(id, owner_id) => i - 1,
            _ => i,
        };
        assert(after.workspaces[k] == state.workspaces[i]);
    }
}

/// A status change by the owner sets the status asked for and the update
/// time to the time of the change, and leaves the rest of the row as it was.
/// The update time is later than the creation time whenever the change is
/// made after the creation.
pub proof fn law_update_sets_status_and_time(
    fields: Map<Seq<char>, Seq<u8>>,
    state: StoreState,
    at: int,
    status: Status,
    now: i64,
)
    requires
        state.wf(),
        0 <= at < state.workspaces.len(),
        owner_of(fields) == Ok::<i32, ApiErrorView>(state.workspaces[at].owner_id),
    ensures
        ({
            let before = state.workspaces[at];
            let request = ApiRequestView::Workspaces(
                WorkspaceRequestView::UpdateStatus {
                    id: before.id,
                    status: Some(status.name_spec()),
                },
            );
            let (after, response) = request.served(fields, state, now);
            let row = WorkspaceView { status, update_time: now, ..before };
            &&& response == ResponseView::success(200, Some(PayloadView::Workspace(row)))
            &&& after.workspaces == state.workspaces.update(at, row)
            &&& row.status == status
            &&& row.update_time == now
            &&& row.id == before.id
            &&& row.owner_id == before.owner_id
            &&& row.name == before.name
            &&& row.description == before.description
            &&& row.create_time == before.create_time
            &&& now > before.create_time ==> row.update_time > row.create_time
        }),
{
    Status::lemma_name_round_trip(status);
    let before = state.workspaces[at];
    assert(state.visible_at(at, before.id, before.owner_id));
}

/// No command changes the owner, the identifier or the creation time of a
/// workspace that it leaves in the store.
pub proof fn law_owner_is_immutable(state: StoreState, command: CommandView, now: i64)
    requires
        state.wf(),
    ensures
        ({
            let after = state.step(command, now).0;
            forall|i: int, j: int|
                0 <= i < state.workspaces.len() && 0 <= j < after.workspaces.len() && (
                #[trigger] state.workspaces[i]).id == (#[trigger] after.workspaces[j]).id ==> {
                    &&& after.workspaces[j].owner_id == state.workspaces[i].owner_id
                    &&& after.workspaces[j].create_time == state.workspaces[i].create_time
                }
        }),
{
}

} // verus!
