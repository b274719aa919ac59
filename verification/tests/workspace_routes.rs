use axum::http::{HeaderMap, HeaderValue, StatusCode};
use workspace_service::dispatch::{dispatch, serve, ApiRequest, UserRequest, WorkspaceRequest};
use workspace_service::error::{ApiError, Field};
use workspace_service::gateway::StoreCommand;
use workspace_service::response::{Payload, Response};
use workspace_service::status::Status;
use workspace_service::store::MemoryStore;
use workspace_service::workspaces::WorkspaceRow;

fn owner(id: &'static str) -> HeaderMap {
    let mut headers = HeaderMap::new();
    headers.insert("content-type", HeaderValue::from_static("application/json"));
    headers.insert("x-owner", HeaderValue::from_static(id));
    headers
}

fn no_owner() -> HeaderMap {
    let mut headers = HeaderMap::new();
    headers.insert("content-type", HeaderValue::from_static("application/json"));
    headers
}

fn create(name: &str, description: &str) -> ApiRequest {
    ApiRequest::Workspaces(WorkspaceRequest::Create {
        name: Some(name.to_string()),
        description: Some(description.to_string()),
    })
}

fn update(id: i32, status: &str) -> ApiRequest {
    ApiRequest::Workspaces(WorkspaceRequest::UpdateStatus {
        id,
        status: Some(status.to_string()),
    })
}

fn workspace(response: &Response) -> &WorkspaceRow {
    match &response.body.data {
        Some(Payload::Workspace(row)) => row,
        other => panic!("no workspace in {:?}", other),
    }
}

fn workspaces(response: &Response) -> &Vec<WorkspaceRow> {
    match &response.body.data {
        Some(Payload::Workspaces(rows)) => rows,
        other => panic!("no workspaces in {:?}", other),
    }
}

/// A store with one user's workspace 1, as the routes' scenarios expect it.
fn seeded() -> MemoryStore {
    let mut store = MemoryStore::new();
    let res = serve(&mut store, &owner("1"), create("w1 of u1", "w1 of u1"), 1_000);
    assert_eq!(res.status, 201);
    assert_eq!(workspace(&res).id, 1);
    store
}

#[test]
fn test_create_workspace_successfully() {
    let mut store = MemoryStore::new();
    let res = serve(&mut store, &owner("1"), create("w1 of u1", "w1 of u1"), 1_000);

    assert_eq!(res.status, StatusCode::CREATED.as_u16());
    assert_eq!(res.body.success, true);
    assert_eq!(workspace(&res).owner_id, 1);
}

#[test]
fn test_create_workspace_failed_due_to_lack_of_ower_id_header() {
    let mut store = MemoryStore::new();
    let res = serve(&mut store, &no_owner(), create("w1 of u1", "w1 of u1"), 1_000);

    assert_eq!(res.status, StatusCode::BAD_REQUEST.as_u16());
}

#[test]
fn test_create_workspace_failed_due_to_lack_of_name_field() {
    let mut store = MemoryStore::new();
    let request = ApiRequest::Workspaces(WorkspaceRequest::Create {
        name: None,
        description: Some("w1 of u1".to_string()),
    });
    let res = serve(&mut store, &owner("1"), request, 1_000);

    assert_eq!(res.status, StatusCode::UNPROCESSABLE_ENTITY.as_u16());
}

#[test]
fn test_get_workspaces() {
    let mut store = seeded();
    let res = serve(
        &mut store,
        &owner("1"),
        ApiRequest::Workspaces(WorkspaceRequest::List),
        2_000,
    );

    assert_eq!(res.status, StatusCode::OK.as_u16());
}

#[test]
fn test_get_workspace_by_id() {
    let mut store = seeded();
    let res = serve(
        &mut store,
        &owner("1"),
        ApiRequest::Workspaces(WorkspaceRequest::Get { id: 1 }),
        2_000,
    );

    assert_eq!(res.status, StatusCode::OK.as_u16());
}

#[test]
fn test_update_workspace_status_successfully() {
    let mut store = seeded();
    let res = serve(&mut store, &owner("1"), update(1, "Expired"), 2_000);

    assert_eq!(res.status, StatusCode::OK.as_u16());
    assert_eq!(res.body.success, true);
    assert_eq!(workspace(&res).status.name(), "Expired");
}

#[test]
fn listing_shows_only_the_owners_rows() {
    let mut store = MemoryStore::new();
    serve(&mut store, &owner("1"), create("a", "first of 1"), 10);
    serve(&mut store, &owner("2"), create("b", "first of 2"), 20);
    serve(&mut store, &owner("1"), create("c", "second of 1"), 30);
    serve(&mut store, &owner("3"), create("d", "first of 3"), 40);

    let list = ApiRequest::Workspaces(WorkspaceRequest::List);
    let res = serve(&mut store, &owner("1"), list, 50);
    assert_eq!(res.status, 200);
    let rows = workspaces(&res);
    // The reference store lists in insertion order; a store is free to differ.
    assert_eq!(rows.iter().map(|r| r.id).collect::<Vec<_>>(), vec![1, 3]);
    assert!(rows.iter().all(|r| r.owner_id == 1));

    let list = ApiRequest::Workspaces(WorkspaceRequest::List);
    let res = serve(&mut store, &owner("2"), list, 50);
    assert_eq!(
        workspaces(&res).iter().map(|r| (r.id, r.owner_id)).collect::<Vec<_>>(),
        vec![(2, 2)]
    );

    let list = ApiRequest::Workspaces(WorkspaceRequest::List);
    let res = serve(&mut store, &owner("4"), list, 50);
    assert_eq!(res.status, 200);
    assert!(workspaces(&res).is_empty());
}

#[test]
fn created_workspace_is_active_and_owned() {
    let mut store = MemoryStore::new();
    let res = serve(&mut store, &owner("1"), create("w1", "w1"), 77);
    assert_eq!(
        res,
        Response {
            status: 201,
            body: workspace_service::response::Envelope {
                success: true,
                data: Some(Payload::Workspace(WorkspaceRow {
                    id: 1,
                    name: "w1".to_string(),
                    description: "w1".to_string(),
                    create_time: 77,
                    update_time: 77,
                    status: Status::Active,
                    owner_id: 1,
                })),
                message: None,
            },
        }
    );
}

#[test]
fn create_without_name_inserts_nothing() {
    let mut store = seeded();
    let request = ApiRequest::Workspaces(WorkspaceRequest::Create {
        name: None,
        description: Some("w".to_string()),
    });
    let res = serve(&mut store, &owner("1"), request, 5);
    assert_eq!(res.status, 422);
    assert_eq!(res.body.success, false);
    assert_eq!(res.body.data, None);
    assert_eq!(
        res.body.message.as_deref(),
        Some("Missing or empty field: name")
    );

    let list = ApiRequest::Workspaces(WorkspaceRequest::List);
    let res = serve(&mut store, &owner("1"), list, 6);
    assert_eq!(workspaces(&res).len(), 1);
}

#[test]
fn create_with_empty_or_missing_fields_is_unprocessable() {
    let headers = owner("1");
    let cases: Vec<(Option<&str>, Option<&str>, Field)> = vec![
        (None, None, Field::Name),
        (Some(""), Some("d"), Field::Name),
        (Some(""), Some(""), Field::Name),
        (Some("n"), None, Field::Description),
        (Some("n"), Some(""), Field::Description),
    ];
    for (name, description, field) in cases {
        let request = ApiRequest::Workspaces(WorkspaceRequest::Create {
            name: name.map(str::to_string),
            description: description.map(str::to_string),
        });
        match dispatch(&headers, request) {
            Err(ApiError::ValidationFailure(found)) => assert_eq!(found, field),
            other => panic!("{:?}", other),
        }
    }
}

#[test]
fn missing_owner_header_stops_every_workspace_route() {
    let requests = vec![
        ApiRequest::Workspaces(WorkspaceRequest::List),
        ApiRequest::Workspaces(WorkspaceRequest::Get { id: 1 }),
        create("n", "d"),
        update(1, "Expired"),
        ApiRequest::Workspaces(WorkspaceRequest::Delete { id: 1 }),
        // The owner check comes before the body is looked at.
        ApiRequest::Workspaces(WorkspaceRequest::Create { name: None, description: None }),
        update(1, "Nonsense"),
    ];
    for request in requests {
        let mut store = seeded();
        let res = serve(&mut store, &no_owner(), request, 9);
        assert_eq!(res.status, 400);
        assert_eq!(res.body.success, false);
        assert_eq!(res.body.data, None);
        assert_eq!(res.body.message.as_deref(), Some("Invalid header"));
        // Nothing reached the store: workspace 1 is as it was.
        let get = ApiRequest::Workspaces(WorkspaceRequest::Get { id: 1 });
        let res = serve(&mut store, &owner("1"), get, 10);
        assert_eq!(workspace(&res).status, Status::Active);
        assert_eq!(workspace(&res).update_time, 1_000);
    }
}

#[test]
fn missing_owner_header_yields_no_command() {
    let request = ApiRequest::Workspaces(WorkspaceRequest::List);
    assert!(matches!(
        dispatch(&no_owner(), request),
        Err(ApiError::MissingOwnerHeader)
    ));
    let request = ApiRequest::Workspaces(WorkspaceRequest::List);
    assert!(matches!(
        dispatch(&owner("none"), request),
        Err(ApiError::InvalidOwnerHeader)
    ));
}

#[test]
fn user_routes_need_no_owner_header() {
    assert_eq!(
        dispatch(&no_owner(), ApiRequest::Users(UserRequest::List)).unwrap(),
        StoreCommand::SelectUsers
    );
    assert_eq!(
        dispatch(
            &no_owner(),
            ApiRequest::Users(UserRequest::Create { username: Some("u1".to_string()) })
        )
        .unwrap(),
        StoreCommand::InsertUser { username: "u1".to_string() }
    );
    assert_eq!(
        dispatch(&owner("junk"), ApiRequest::Users(UserRequest::Delete { id: 3 })).unwrap(),
        StoreCommand::DeleteUser { id: 3 }
    );
    assert!(matches!(
        dispatch(&no_owner(), ApiRequest::Users(UserRequest::Create { username: None })),
        Err(ApiError::ValidationFailure(Field::Username))
    ));
}

#[test]
fn cross_owner_update_is_not_found() {
    let mut store = seeded();
    let res = serve(&mut store, &owner("2"), update(1, "Expired"), 2_000);
    assert_eq!(res.status, 404);
    assert_eq!(res.body.success, false);
    assert_eq!(res.body.data, None);
    assert_eq!(res.body.message.as_deref(), Some("Workspace not found"));

    let get = ApiRequest::Workspaces(WorkspaceRequest::Get { id: 1 });
    let res = serve(&mut store, &owner("1"), get, 3_000);
    assert_eq!(workspace(&res).status, Status::Active);
    assert_eq!(workspace(&res).update_time, 1_000);
}

#[test]
fn cross_owner_read_is_not_found() {
    let mut store = seeded();
    let get = ApiRequest::Workspaces(WorkspaceRequest::Get { id: 1 });
    let res = serve(&mut store, &owner("2"), get, 2_000);
    assert_eq!(res.status, 404);
    let get = ApiRequest::Workspaces(WorkspaceRequest::Get { id: 2 });
    let res = serve(&mut store, &owner("1"), get, 2_000);
    assert_eq!(res.status, 404);
}

#[test]
fn cross_owner_delete_removes_nothing() {
    let mut store = seeded();
    let delete = ApiRequest::Workspaces(WorkspaceRequest::Delete { id: 1 });
    let res = serve(&mut store, &owner("2"), delete, 2_000);
    assert_eq!(res.status, 200);
    let get = ApiRequest::Workspaces(WorkspaceRequest::Get { id: 1 });
    assert_eq!(serve(&mut store, &owner("1"), get, 3_000).status, 200);

    let delete = ApiRequest::Workspaces(WorkspaceRequest::Delete { id: 1 });
    let res = serve(&mut store, &owner("1"), delete, 4_000);
    assert_eq!(res.status, 200);
    assert_eq!(res.body.success, true);
    assert_eq!(res.body.data, None);
    assert_eq!(res.body.message, None);
    let get = ApiRequest::Workspaces(WorkspaceRequest::Get { id: 1 });
    assert_eq!(serve(&mut store, &owner("1"), get, 5_000).status, 404);
}

#[test]
fn update_sets_status_and_a_later_update_time() {
    let mut store = seeded();
    let res = serve(&mut store, &owner("1"), update(1, "Expired"), 2_000);
    assert_eq!(res.status, 200);
    let row = workspace(&res);
    assert_eq!(row.status, Status::Expired);
    assert_eq!(row.create_time, 1_000);
    assert_eq!(row.update_time, 2_000);
    assert!(row.update_time > row.create_time);
    assert_eq!(row.id, 1);
    assert_eq!(row.owner_id, 1);
    assert_eq!(row.name, "w1 of u1");
    assert_eq!(row.description, "w1 of u1");
}

#[test]
fn any_status_may_follow_any_other() {
    let mut store = seeded();
    let mut now = 2_000;
    for from in ["Inactive", "Active", "Expired", "Provisioning"] {
        for to in ["Inactive", "Active", "Expired", "Provisioning"] {
            assert_eq!(serve(&mut store, &owner("1"), update(1, from), now).status, 200);
            let res = serve(&mut store, &owner("1"), update(1, to), now + 1);
            assert_eq!(res.status, 200);
            assert_eq!(workspace(&res).status.name(), to);
            now += 2;
        }
    }
}

#[test]
fn update_with_unknown_status_is_unprocessable() {
    let mut store = seeded();
    for token in ["expired", "EXPIRED", "Deleted", "", " Active", "Active "] {
        let res = serve(&mut store, &owner("1"), update(1, token), 2_000);
        assert_eq!(res.status, 422, "token {:?}", token);
        assert_eq!(
            res.body.message.as_deref(),
            Some("Missing or unknown field: status")
        );
    }
    let request = ApiRequest::Workspaces(WorkspaceRequest::UpdateStatus { id: 1, status: None });
    assert_eq!(serve(&mut store, &owner("1"), request, 2_000).status, 422);
    let get = ApiRequest::Workspaces(WorkspaceRequest::Get { id: 1 });
    assert_eq!(
        workspace(&serve(&mut store, &owner("1"), get, 2_000)).status,
        Status::Active
    );
}

#[test]
fn update_of_unknown_workspace_is_not_found() {
    let mut store = seeded();
    assert_eq!(serve(&mut store, &owner("1"), update(2, "Expired"), 2_000).status, 404);
    assert_eq!(serve(&mut store, &owner("1"), update(-1, "Expired"), 2_000).status, 404);
}

#[test]
fn created_workspace_is_read_back() {
    let mut store = seeded();
    let created = serve(&mut store, &owner("7"), create("w1", "about w1"), 5_000);
    assert_eq!(created.status, 201);
    let id = workspace(&created).id;
    assert_eq!(id, 2);

    let get = ApiRequest::Workspaces(WorkspaceRequest::Get { id });
    let read = serve(&mut store, &owner("7"), get, 6_000);
    assert_eq!(read.status, 200);
    assert_eq!(workspace(&read), workspace(&created));
    assert_eq!(workspace(&read).id, id);
    assert_eq!(workspace(&read).name, "w1");
    assert_eq!(workspace(&read).description, "about w1");
    assert_eq!(workspace(&read).owner_id, 7);
}
