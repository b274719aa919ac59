use workspace_service::gateway::{SqlValue, StoreCommand, StoreReply};
use workspace_service::response::{respond, Envelope, Payload, Response};
use workspace_service::status::Status;
use workspace_service::users::{create_user, delete_user, get_users, CreateUserReq, UserRow};
use workspace_service::workspaces::{
    create_workspace, delete_workspace, get_workspace_by_id, get_workspaces,
    update_workspace_status, CreateWorkspaceReq, UpdateWorkspaceStatusReq, WorkspaceRow,
};
use workspace_service::error::{ApiError, Field};

fn sample_row() -> WorkspaceRow {
    WorkspaceRow {
        id: 4,
        name: "n".to_string(),
        description: "d".to_string(),
        create_time: 1,
        update_time: 2,
        status: Status::Inactive,
        owner_id: 9,
    }
}

fn all_commands() -> Vec<StoreCommand> {
    vec![
        StoreCommand::SelectUsers,
        StoreCommand::InsertUser { username: "u".to_string() },
        StoreCommand::DeleteUser { id: 1 },
        StoreCommand::SelectWorkspaces { owner_id: 1 },
        StoreCommand::SelectWorkspace { id: 1, owner_id: 1 },
        StoreCommand::InsertWorkspace {
            name: "n".to_string(),
            description: "d".to_string(),
            status: Status::Active,
            owner_id: 1,
        },
        StoreCommand::UpdateWorkspaceStatus { id: 1, owner_id: 1, status: Status::Expired },
        StoreCommand::DeleteWorkspace { id: 1, owner_id: 1 },
    ]
}

fn failure(status: u16, message: &str) -> Response {
    Response {
        status,
        body: Envelope { success: false, data: None, message: Some(message.to_string()) },
    }
}

#[test]
fn handlers_make_owner_scoped_commands() {
    assert_eq!(get_workspaces(3), StoreCommand::SelectWorkspaces { owner_id: 3 });
    assert_eq!(get_workspace_by_id(3, 8), StoreCommand::SelectWorkspace { id: 8, owner_id: 3 });
    assert_eq!(
        update_workspace_status(3, 8, UpdateWorkspaceStatusReq { status: Status::Expired }),
        StoreCommand::UpdateWorkspaceStatus { id: 8, owner_id: 3, status: Status::Expired }
    );
    assert_eq!(delete_workspace(3, 8), StoreCommand::DeleteWorkspace { id: 8, owner_id: 3 });
}

#[test]
fn create_workspace_forces_active_and_sets_owner() {
    let body = CreateWorkspaceReq { name: "w1".to_string(), description: "w1".to_string() };
    assert_eq!(
        create_workspace(1, body).unwrap(),
        StoreCommand::InsertWorkspace {
            name: "w1".to_string(),
            description: "w1".to_string(),
            status: Status::Active,
            owner_id: 1,
        }
    );
}

#[test]
fn create_workspace_refuses_empty_fields() {
    let body = CreateWorkspaceReq { name: String::new(), description: "d".to_string() };
    assert!(matches!(
        create_workspace(1, body),
        Err(ApiError::ValidationFailure(Field::Name))
    ));
    let body = CreateWorkspaceReq { name: "n".to_string(), description: String::new() };
    assert!(matches!(
        create_workspace(1, body),
        Err(ApiError::ValidationFailure(Field::Description))
    ));
}

#[test]
fn user_handlers_make_unscoped_commands() {
    assert_eq!(get_users(), StoreCommand::SelectUsers);
    assert_eq!(
        create_user(CreateUserReq { username: "ann".to_string() }),
        StoreCommand::InsertUser { username: "ann".to_string() }
    );
    assert_eq!(delete_user(12), StoreCommand::DeleteUser { id: 12 });
}

#[test]
fn statements_are_fixed_texts() {
    let texts: Vec<&str> = all_commands().iter().map(|c| c.statement()).collect();
    assert_eq!(
        texts,
        vec![
            "SELECT * FROM users",
            "INSERT INTO users(username) VALUES ($1) RETURNING *",
            "DELETE FROM users WHERE id = $1",
            "SELECT * FROM workspaces WHERE owner_id = $1",
            "SELECT * FROM workspaces WHERE id = $1 AND owner_id = $2",
            "INSERT INTO workspaces(name, description, status, owner_id) VALUES ($1, $2, $3, $4) RETURNING *",
            "UPDATE workspaces SET status = $1, update_time = now() WHERE id = $2 AND owner_id = $3 RETURNING *",
            "DELETE FROM workspaces WHERE id = $1 AND owner_id = $2",
        ]
    );
}

#[test]
fn statement_does_not_depend_on_the_values() {
    let hostile = StoreCommand::InsertWorkspace {
        name: "x'); DROP TABLE workspaces; --".to_string(),
        description: "$1 $2".to_string(),
        status: Status::Active,
        owner_id: -1,
    };
    let plain = StoreCommand::InsertWorkspace {
        name: "n".to_string(),
        description: "d".to_string(),
        status: Status::Expired,
        owner_id: 1,
    };
    assert_eq!(hostile.statement(), plain.statement());
    assert_eq!(
        hostile.binds(),
        vec![
            SqlValue::Text("x'); DROP TABLE workspaces; --".to_string()),
            SqlValue::Text("$1 $2".to_string()),
            SqlValue::Status(Status::Active),
            SqlValue::Int(-1),
        ]
    );
}

#[test]
fn binds_follow_the_placeholders() {
    let binds: Vec<Vec<SqlValue>> = all_commands().iter().map(|c| c.binds()).collect();
    assert_eq!(
        binds,
        vec![
            vec![],
            vec![SqlValue::Text("u".to_string())],
            vec![SqlValue::Int(1)],
            vec![SqlValue::Int(1)],
            vec![SqlValue::Int(1), SqlValue::Int(1)],
            vec![
                SqlValue::Text("n".to_string()),
                SqlValue::Text("d".to_string()),
                SqlValue::Status(Status::Active),
                SqlValue::Int(1),
            ],
            vec![SqlValue::Status(Status::Expired), SqlValue::Int(1), SqlValue::Int(1)],
            vec![SqlValue::Int(1), SqlValue::Int(1)],
        ]
    );
    let update = StoreCommand::UpdateWorkspaceStatus { id: 7, owner_id: 3, status: Status::Inactive };
    assert_eq!(
        update.binds(),
        vec![SqlValue::Status(Status::Inactive), SqlValue::Int(7), SqlValue::Int(3)]
    );
    let select = StoreCommand::SelectWorkspace { id: 7, owner_id: 3 };
    assert_eq!(select.binds(), vec![SqlValue::Int(7), SqlValue::Int(3)]);
}

#[test]
fn store_failure_is_a_server_error_with_the_stores_message() {
    for command in all_commands() {
        assert_eq!(
            respond(&command, StoreReply::Failed("connection refused".to_string())),
            failure(500, "connection refused")
        );
    }
}

#[test]
fn rows_are_answered_with_ok_or_created() {
    let row = sample_row();
    let cases = vec![
        (StoreCommand::SelectWorkspace { id: 4, owner_id: 9 }, 200),
        (
            StoreCommand::InsertWorkspace {
                name: "n".to_string(),
                description: "d".to_string(),
                status: Status::Active,
                owner_id: 9,
            },
            201,
        ),
        (
            StoreCommand::UpdateWorkspaceStatus { id: 4, owner_id: 9, status: Status::Inactive },
            200,
        ),
    ];
    for (command, status) in cases {
        assert_eq!(
            respond(&command, StoreReply::Workspace(row.clone())),
            Response {
                status,
                body: Envelope {
                    success: true,
                    data: Some(Payload::Workspace(row.clone())),
                    message: None,
                },
            }
        );
    }
    assert_eq!(
        respond(
            &StoreCommand::SelectWorkspaces { owner_id: 9 },
            StoreReply::Workspaces(vec![row.clone(), row.clone()])
        ),
        Response {
            status: 200,
            body: Envelope {
                success: true,
                data: Some(Payload::Workspaces(vec![row.clone(), row.clone()])),
                message: None,
            },
        }
    );
}

#[test]
fn user_replies_are_answered() {
    let user = UserRow { id: 1, username: "ann".to_string() };
    assert_eq!(
        respond(&StoreCommand::SelectUsers, StoreReply::Users(vec![user.clone()])),
        Response {
            status: 200,
            body: Envelope {
                success: true,
                data: Some(Payload::Users(vec![user.clone()])),
                message: None,
            },
        }
    );
    assert_eq!(
        respond(
            &StoreCommand::InsertUser { username: "ann".to_string() },
            StoreReply::User(user.clone())
        ),
        Response {
            status: 201,
            body: Envelope { success: true, data: Some(Payload::User(user)), message: None },
        }
    );
    assert_eq!(
        respond(&StoreCommand::DeleteUser { id: 1 }, StoreReply::Done),
        Response { status: 200, body: Envelope { success: true, data: None, message: None } }
    );
}

#[test]
fn no_row_is_not_found_for_reads_and_updates_of_one_workspace() {
    assert_eq!(
        respond(&StoreCommand::SelectWorkspace { id: 1, owner_id: 2 }, StoreReply::NoRow),
        failure(404, "Workspace not found")
    );
    assert_eq!(
        respond(
            &StoreCommand::UpdateWorkspaceStatus { id: 1, owner_id: 2, status: Status::Expired },
            StoreReply::NoRow
        ),
        failure(404, "Workspace not found")
    );
}

#[test]
fn replies_of_the_wrong_shape_are_server_errors() {
    let unexpected = failure(500, "Unexpected reply from the store");
    let row = sample_row();
    let user = UserRow { id: 1, username: "ann".to_string() };
    assert_eq!(respond(&StoreCommand::SelectUsers, StoreReply::NoRow), unexpected);
    assert_eq!(respond(&StoreCommand::SelectUsers, StoreReply::Done), unexpected);
    assert_eq!(
        respond(&StoreCommand::SelectUsers, StoreReply::Workspaces(vec![])),
        unexpected
    );
    assert_eq!(
        respond(&StoreCommand::InsertUser { username: "a".to_string() }, StoreReply::NoRow),
        unexpected
    );
    assert_eq!(
        respond(&StoreCommand::SelectWorkspaces { owner_id: 1 }, StoreReply::Users(vec![])),
        unexpected
    );
    assert_eq!(
        respond(&StoreCommand::SelectWorkspaces { owner_id: 1 }, StoreReply::Workspace(row.clone())),
        unexpected
    );
    assert_eq!(
        respond(&StoreCommand::SelectWorkspace { id: 1, owner_id: 1 }, StoreReply::User(user)),
        unexpected
    );
    assert_eq!(
        respond(&StoreCommand::DeleteWorkspace { id: 1, owner_id: 1 }, StoreReply::NoRow),
        unexpected
    );
    assert_eq!(
        respond(&StoreCommand::DeleteWorkspace { id: 1, owner_id: 1 }, StoreReply::Workspace(row)),
        unexpected
    );
    assert_eq!(
        respond(
            &StoreCommand::InsertWorkspace {
                name: "n".to_string(),
                description: "d".to_string(),
                status: Status::Active,
                owner_id: 1,
            },
            StoreReply::NoRow
        ),
        unexpected
    );
}

#[test]
fn delete_is_answered_with_a_bare_success() {
    assert_eq!(
        respond(&StoreCommand::DeleteWorkspace { id: 1, owner_id: 1 }, StoreReply::Done),
        Response { status: 200, body: Envelope { success: true, data: None, message: None } }
    );
}
