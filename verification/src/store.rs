//! A reference model of the store behind the gateway.
//!
//! The model says what each command of the gateway does to the tables and
//! what it answers. Rows keep the order in which they were inserted, and
//! identifiers are handed out in ascending order and never reused.
//! [`MemoryStore`] runs the model on rows held in memory.

use crate::gateway::CommandView;
use crate::gateway::ReplyView;
use crate::gateway::StoreCommand;
use crate::gateway::StoreReply;
use crate::users::user_views;
use crate::users::UserRow;
use crate::users::UserView;
use crate::workspaces::workspace_views;
use crate::workspaces::WorkspaceRow;
use crate::workspaces::WorkspaceView;
use vstd::prelude::*;

verus! {

/// The state of the store: both tables and the next identifier of each.
pub struct StoreState {
    pub users: Seq<UserView>,
    pub workspaces: Seq<WorkspaceView>,
    pub next_user_id: i32,
    pub next_workspace_id: i32,
}

/// The rows that belong to an owner.
pub open spec fn owned_by(owner_id: i32) -> spec_fn(WorkspaceView) -> bool {
    |row: WorkspaceView| row.owner_id == owner_id
}

/// The message of the store when a table has run out of identifiers.
pub open spec fn exhausted() -> Seq<char> {
    "Identifier sequence exhausted"@
}

impl StoreState {
    /// The store with no rows, about to hand out identifier 1 in each table.
    pub open spec fn empty() -> StoreState {
        StoreState {
            users: Seq::empty(),
            workspaces: Seq::empty(),
            next_user_id: 1,
            next_workspace_id: 1,
        }
    }

    /// Identifiers are positive, below the next one to be handed out, and
    /// unique within their table.
    pub open spec fn wf(self) -> bool {
        &&& 1 <= self.next_user_id
        &&& 1 <= self.next_workspace_id
        &&& forall|i: int|
            0 <= i < self.users.len() ==> 1 <= (#[trigger] self.users[i]).id < self.next_user_id
        &&& forall|i: int, j: int|
            0 <= i < j < self.users.len() ==> (#[trigger] self.users[i]).id != (
            #[trigger] self.users[j]).id
        &&& forall|i: int|
            0 <= i < self.workspaces.len() ==> 1 <= (#[trigger] self.workspaces[i]).id
                < self.next_workspace_id
        &&& forall|i: int, j: int|
            0 <= i < j < self.workspaces.len() ==> (#[trigger] self.workspaces[i]).id != (
            #[trigger] self.workspaces[j]).id
    }

    /// Whether the user at a position has an identifier.
    pub open spec fn user_at(self, i: int, id: i32) -> bool {
        0 <= i < self.users.len() && self.users[i].id == id
    }

    /// Whether a user with an identifier exists.
    pub open spec fn has_user(self, id: i32) -> bool {
        exists|i: int| self.user_at(i, id)
    }

    /// The position of the user with an identifier.
    pub open spec fn user_position(self, id: i32) -> int {
        choose|i: int| self.user_at(i, id)
    }

    /// Whether the workspace at a position has an identifier and an owner.
    pub open spec fn visible_at(self, i: int, id: i32, owner_id: i32) -> bool {
        0 <= i < self.workspaces.len() && self.workspaces[i].id == id
            && self.workspaces[i].owner_id == owner_id
    }

    /// Whether an owner has a workspace with an identifier. A workspace of
    /// another owner is as invisible as one that does not exist.
    pub open spec fn visible(self, id: i32, owner_id: i32) -> bool {
        exists|i: int| self.visible_at(i, id, owner_id)
    }

    /// The position of the workspace with an identifier among those of an
    /// owner.
    pub open spec fn position(self, id: i32, owner_id: i32) -> int {
        choose|i: int| self.visible_at(i, id, owner_id)
    }

    /// What a command does: the state after it and the reply to it, when the
    /// store's clock reads `now`.
    pub open spec fn step(self, command: CommandView, now: i64) -> (StoreState, ReplyView) {
        match command {
            CommandView::SelectUsers => (self, ReplyView::Users(self.users)),
            CommandView::InsertUser { username } => {
                if self.next_user_id < i32::MAX {
                    let row = UserView { id: self.next_user_id, username };
                    (
                        StoreState {
                            users: self.users.push(row),
                            next_user_id: (self.next_user_id + 1) as i32,
                            ..self
                        },
                        ReplyView::User(row),
                    )
                } else {
                    (self, ReplyView::Failed(exhausted()))
                }
            },
            CommandView::DeleteUser { id } => {
                if self.has_user(id) {
                    (
                        StoreState { users: self.users.remove(self.user_position(id)), ..self },
                        ReplyView::Done,
                    )
                } else {
                    (self, ReplyView::Done)
                }
            },
            CommandView::SelectWorkspaces { owner_id } => (
                self,
                ReplyView::Workspaces(self.workspaces.filter(owned_by(owner_id))),
            ),
            CommandView::SelectWorkspace { id, owner_id } => {
                if self.visible(id, owner_id) {
                    (self, ReplyView::Workspace(self.workspaces[self.position(id, owner_id)]))
                } else {
                    (self, ReplyView::NoRow)
                }
            },
            CommandView::InsertWorkspace { name, description, status, owner_id } => {
                if self.next_workspace_id < i32::MAX {
                    let row = WorkspaceView {
                        id: self.next_workspace_id,
                        name,
                        description,
                        create_time: now,
                        update_time: now,
                        status,
                        owner_id,
                    };
                    (
                        StoreState {
                            workspaces: self.workspaces.push(row),
                            next_workspace_id: (self.next_workspace_id + 1) as i32,
                            ..self
                        },
                        ReplyView::Workspace(row),
                    )
                } else {
                    (self, ReplyView::Failed(exhausted()))
                }
            },
            CommandView::UpdateWorkspaceStatus { id, owner_id, status } => {
                if self.visible(id, owner_id) {
                    let at = self.position(id, owner_id);
                    let row = WorkspaceView { status, update_time: now, ..self.workspaces[at] };
                    (
                        StoreState { workspaces: self.workspaces.update(at, row), ..self },
                        ReplyView::Workspace(row),
                    )
                } else {
                    (self, ReplyView::NoRow)
                }
            },
            CommandView::DeleteWorkspace { id, owner_id } => {
                if self.visible(id, owner_id) {
                    (
                        StoreState {
                            workspaces: self.workspaces.remove(self.position(id, owner_id)),
                            ..self
                        },
                        ReplyView::Done,
                    )
                } else {
                    (self, ReplyView::Done)
                }
            },
        }
    }
}

/// No command breaks the store's invariant: identifiers stay positive, below
/// the next one to be handed out, and unique within their table.
pub proof fn lemma_step_preserves_wf(state: StoreState, command: CommandView, now: i64)
    requires
        state.wf(),
    ensures
        state.step(command, now).0.wf(),
{
}

/// A store held in memory that behaves as the model says.
pub struct MemoryStore {
    users: Vec<UserRow>,
    workspaces: Vec<WorkspaceRow>,
    next_user_id: i32,
    next_workspace_id: i32,
}

impl View for MemoryStore {
    type V = StoreState;

    closed spec fn view(&self) -> StoreState {
        StoreState {
            users: user_views(self.users@),
            workspaces: workspace_views(self.workspaces@),
            next_user_id: self.next_user_id,
            next_workspace_id: self.next_workspace_id,
        }
    }
}

impl MemoryStore {
    /// A store with no rows.
    pub fn new() -> (store: MemoryStore)
        ensures
            store@ == StoreState::empty(),
            store@.wf(),
    {
        let store = MemoryStore {
            users: Vec::new(),
            workspaces: Vec::new(),
            next_user_id: 1,
            next_workspace_id: 1,
        };
        assert(store@.users =~= Seq::empty());
        assert(store@.workspaces =~= Seq::empty());
        store
    }

    /// A store with no rows whose tables hand out the given identifiers
    /// next. There is none for an identifier below 1.
    pub fn starting_at(next_user_id: i32, next_workspace_id: i32) -> (r: Option<MemoryStore>)
        ensures
            match r {
                Some(store) => {
                    &&& next_user_id >= 1
                    &&& next_workspace_id >= 1
                    &&& store@ == (StoreState {
                        next_user_id,
                        next_workspace_id,
                        ..StoreState::empty()
                    })
                    &&& store@.wf()
                },
                None => next_user_id < 1 || next_workspace_id < 1,
            },
    {
        if next_user_id < 1 || next_workspace_id < 1 {
            return None;
        }
        let store = MemoryStore {
            users: Vec::new(),
            workspaces: Vec::new(),
            next_user_id,
            next_workspace_id,
        };
        assert(store@.users =~= Seq::empty());
        assert(store@.workspaces =~= Seq::empty());
        Some(store)
    }

    fn find_user(&self, id: i32) -> (r: Option<usize>)
        requires
            self@.wf(),
        ensures
            match r {
                Some(at) => self@.has_user(id) && at == self@.user_position(id),
                None => !self@.has_user(id),
            },
    {
        let mut i: usize = 0;
        while i < self.users.len()
            invariant
                self@.wf(),
                i <= self.users.len(),
                forall|j: int| 0 <= j < i ==> !self@.user_at(j, id),
            decreases self.users.len() - i,
        {
            if self.users[i].id == id {
                assert(self@.user_at(i as int, id));
                return Some(i);
            }
            i += 1;
        }
        None
    }

    fn find_workspace(&self, id: i32, owner_id: i32) -> (r: Option<usize>)
        requires
            self@.wf(),
        ensures
            match r {
                Some(at) => self@.visible(id, owner_id) && at == self@.position(id, owner_id),
                None => !self@.visible(id, owner_id),
            },
    {
        let mut i: usize = 0;
        while i < self.workspaces.len()
            invariant
                self@.wf(),
                i <= self.workspaces.len(),
                forall|j: int| 0 <= j < i ==> !self@.visible_at(j, id, owner_id),
            decreases self.workspaces.len() - i,
        {
            if self.workspaces[i].id == id && self.workspaces[i].owner_id == owner_id {
                assert(self@.visible_at(i as int, id, owner_id));
                return Some(i);
            }
            i += 1;
        }
        None
    }

    fn select_users(&self) -> (rows: Vec<UserRow>)
        ensures
            user_views(rows@) == self@.users,
    {
        let mut rows: Vec<UserRow> = Vec::new();
        let mut i: usize = 0;
        while i < self.users.len()
            invariant
                i <= self.users.len(),
                rows@.len() == i,
                forall|j: int| 0 <= j < i ==> rows@[j] == self.users@[j],
            decreases self.users.len() - i,
        {
            rows.push(self.users[i].clone());
            i += 1;
        }
        rows
    }

    fn select_workspaces(&self, owner_id: i32) -> (rows: Vec<WorkspaceRow>)
        ensures
            workspace_views(rows@) == self@.workspaces.filter(owned_by(owner_id)),
    {
        let mut rows: Vec<WorkspaceRow> = Vec::new();
        let mut i: usize = 0;
        proof {
            reveal(Seq::filter);
        }
        while i < self.workspaces.len()
            invariant
                i <= self.workspaces.len(),
                workspace_views(rows@) == self@.workspaces.take(i as int).filter(
                    owned_by(owner_id),
                ),
            decreases self.workspaces.len() - i,
        {
            let ghost seen = self@.workspaces.take(i as int);
            let ghost before = rows@;
            proof {
                assert(self@.workspaces.take(i + 1) =~= seen.push(self@.workspaces[i as int]));
                seen.lemma_filter_push(self@.workspaces[i as int], owned_by(owner_id));
            }
            if self.workspaces[i].owner_id == owner_id {
                rows.push(self.workspaces[i].clone());
                assert(workspace_views(rows@) =~= workspace_views(before).push(
                    self@.workspaces[i as int],
                ));
            }
            i += 1;
        }
        assert(self@.workspaces.take(i as int) =~= self@.workspaces);
        rows
    }

    /// Runs a command against the rows, at the time the store's clock reads.
    pub fn execute(&mut self, command: &StoreCommand, now: i64) -> (reply: StoreReply)
        requires
            old(self)@.wf(),
        ensures
            final(self)@.wf(),
            final(self)@ == old(self)@.step(command@, now).0,
            reply@ == old(self)@.step(command@, now).1,
    {
        proof {
            lemma_step_preserves_wf(self@, command@, now);
        }
        match command {
            StoreCommand::SelectUsers => StoreReply::Users(self.select_users()),
            StoreCommand::InsertUser { username } => {
                if self.next_user_id < i32::MAX {
                    let row = UserRow { id: self.next_user_id, username: username.clone() };
                    let ghost before = self.users@;
                    self.users.push(row.clone());
                    self.next_user_id = self.next_user_id + 1;
                    assert(user_views(self.users@) =~= user_views(before).push(row@));
                    StoreReply::User(row)
                } else {
                    StoreReply::Failed("Identifier sequence exhausted".to_owned())
                }
            },
            StoreCommand::DeleteUser { id } => {
                match self.find_user(*id) {
                    Some(at) => {
                        let ghost before = self.users@;
                        self.users.remove(at);
                        assert(user_views(self.users@) =~= user_views(before).remove(at as int));
                    },
                    None => {},
                }
                StoreReply::Done
            },
            StoreCommand::SelectWorkspaces { owner_id } => StoreReply::Workspaces(
                self.select_workspaces(*owner_id),
            ),
            StoreCommand::SelectWorkspace { id, owner_id } => {
                match self.find_workspace(*id, *owner_id) {
                    Some(at) => StoreReply::Workspace(self.workspaces[at].clone()),
                    None => StoreReply::NoRow,
                }
            },
            StoreCommand::InsertWorkspace { name, description, status, owner_id } => {
                if self.next_workspace_id < i32::MAX {
                    let row = WorkspaceRow {
                        id: self.next_workspace_id,
                        name: name.clone(),
                        description: description.clone(),
                        create_time: now,
                        update_time: now,
                        status: *status,
                        owner_id: *owner_id,
                    };
                    let ghost before = self.workspaces@;
                    self.workspaces.push(row.clone());
                    self.next_workspace_id = self.next_workspace_id + 1;
                    assert(workspace_views(self.workspaces@) =~= workspace_views(before).push(
                        row@,
                    ));
                    StoreReply::Workspace(row)
                } else {
                    StoreReply::Failed("Identifier sequence exhausted".to_owned())
                }
            },
            StoreCommand::UpdateWorkspaceStatus { id, owner_id, status } => {
                match self.find_workspace(*id, *owner_id) {
                    Some(at) => {
                        let ghost before = self.workspaces@;
                        let mut row = self.workspaces[at].clone();
                        row.status = *status;
                        row.update_time = now;
                        self.workspaces[at] = row.clone();
                        assert(workspace_views(self.workspaces@) =~= workspace_views(
                            before,
                        ).update(at as int, row@));
                        StoreReply::Workspace(row)
                    },
                    None => StoreReply::NoRow,
                }
            },
            StoreCommand::DeleteWorkspace { id, owner_id } => {
                match self.find_workspace(*id, *owner_id) {
                    Some(at) => {
                        let ghost before = self.workspaces@;
                        self.workspaces.remove(at);
                        assert(workspace_views(self.workspaces@) =~= workspace_views(
                            before,
                        ).remove(at as int));
                    },
                    None => {},
                }
                StoreReply::Done
            },
        }
    }
}

} // verus!
