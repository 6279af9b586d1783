use radrun_api::auth_repo::AuthRepo;
use radrun_api::auth_routes::sign_up;
use radrun_api::auth_routes::SignUpReq;
use radrun_api::error::ApiError;
use radrun_api::session_store::{InsertSession, SessionStore};

#[test]
fn create_and_get_by_token() {
    let mut store = SessionStore::new();
    let row = store.create(InsertSession { user_id: 7 }, 42, 100).unwrap();
    assert_eq!(row.id, 42);
    assert_eq!(row.user_id, 7);
    assert_eq!(row.created_at, 100);
    assert_eq!(row.updated_at, 100);
    assert_eq!(store.get(42).unwrap().user_id, 7);
    assert!(matches!(store.get(43), Err(ApiError::NotFound)));
}

#[test]
fn duplicate_token_conflicts() {
    let mut store = SessionStore::new();
    store.create(InsertSession { user_id: 7 }, 42, 100).unwrap();
    let r = store.create(InsertSession { user_id: 8 }, 42, 200);
    assert!(matches!(r, Err(ApiError::Conflict)));
    assert_eq!(store.rows.len(), 1);
    assert_eq!(store.rows[0].user_id, 7);
}

#[test]
fn delete_removes_exactly_the_token() {
    let mut store = SessionStore::new();
    store.create(InsertSession { user_id: 1 }, 10, 100).unwrap();
    store.create(InsertSession { user_id: 2 }, 20, 100).unwrap();
    let deleted = store.delete(10).unwrap();
    assert_eq!(deleted.id, 10);
    assert_eq!(store.rows.len(), 1);
    assert_eq!(store.rows[0].id, 20);
    assert!(matches!(store.delete(10), Err(ApiError::NotFound)));
}

#[test]
fn delete_for_user_keeps_other_owners_in_order() {
    let mut store = SessionStore::new();
    store.create(InsertSession { user_id: 1 }, 10, 100).unwrap();
    store.create(InsertSession { user_id: 2 }, 20, 100).unwrap();
    store.create(InsertSession { user_id: 1 }, 30, 100).unwrap();
    store.create(InsertSession { user_id: 3 }, 40, 100).unwrap();
    store.delete_for_user(1);
    assert_eq!(store.rows.len(), 2);
    assert_eq!(store.rows[0].id, 20);
    assert_eq!(store.rows[1].id, 40);
}

#[test]
fn deleting_a_user_cascades_to_its_sessions() {
    let mut repo = AuthRepo::new();
    let a = sign_up(
        &mut repo,
        &SignUpReq {
            first_name: "A".to_string(),
            last_name: "B".to_string(),
            email: "a@x.com".to_string(),
            password: "pw".to_string(),
        },
        10,
    )
    .unwrap();
    let b = sign_up(
        &mut repo,
        &SignUpReq {
            first_name: "C".to_string(),
            last_name: "D".to_string(),
            email: "b@x.com".to_string(),
            password: "pw".to_string(),
        },
        10,
    )
    .unwrap();
    assert_eq!(repo.session_store.rows.len(), 2);

    repo.delete_user(a.user.id).unwrap();

    // The deleted user's session is gone; the other user's survives.
    assert_eq!(repo.session_store.rows.len(), 1);
    assert!(matches!(
        repo.get_user_by_session_id(a.session.session_id),
        Err(ApiError::NotFound)
    ));
    assert_eq!(
        repo.get_user_by_session_id(b.session.session_id).unwrap().email,
        "b@x.com"
    );
}
