use radrun_api::auth_repo::AuthRepo;
use radrun_api::error::ApiError;
use radrun_api::user_routes::{
    delete_user, get_user, list_users, sign_up, update_user, UserCreateReq, UserUpdateReq,
};

fn create_req(first: &str, last: &str, email: &str, password: &str) -> UserCreateReq {
    UserCreateReq {
        first_name: first.to_string(),
        last_name: last.to_string(),
        email: email.to_string(),
        password: password.to_string(),
    }
}

#[test]
fn user_create_route_projects_without_hash_material() {
    let mut repo = AuthRepo::new();
    let res = sign_up(&mut repo, &create_req("A", "B", "a@x.com", "pw"), 100).unwrap();
    assert_eq!(res.id, 1);
    assert_eq!(res.first_name, "A");
    assert_eq!(res.last_name, "B");
    assert_eq!(res.email, "a@x.com");
    assert_eq!(res.created_at, 100);
    assert_eq!(res.updated_at, 100);
    // The stored row carries a real hash, not the plaintext.
    assert_ne!(repo.user_store.rows[0].password_hash, "pw");
    // Creating a user through this route issues no session.
    assert_eq!(repo.session_store.rows.len(), 0);
}

#[test]
fn user_create_route_conflicts_on_taken_email() {
    let mut repo = AuthRepo::new();
    sign_up(&mut repo, &create_req("A", "B", "a@x.com", "pw"), 100).unwrap();
    let r = sign_up(&mut repo, &create_req("C", "D", "a@x.com", "pw2"), 200);
    assert!(matches!(r, Err(ApiError::Conflict)));
    assert_eq!(repo.user_store.rows.len(), 1);
}

#[test]
fn user_routes_on_absent_id_are_not_found() {
    let mut repo = AuthRepo::new();
    sign_up(&mut repo, &create_req("A", "B", "a@x.com", "pw"), 100).unwrap();
    assert!(matches!(get_user(&repo, 9), Err(ApiError::NotFound)));
    let upd = UserUpdateReq { first_name: "X".to_string(), last_name: "Y".to_string() };
    assert!(matches!(update_user(&mut repo, 9, &upd, 1), Err(ApiError::NotFound)));
    assert!(matches!(delete_user(&mut repo, 9), Err(ApiError::NotFound)));
}

#[test]
fn user_update_route_touches_only_names() {
    let mut repo = AuthRepo::new();
    sign_up(&mut repo, &create_req("A", "B", "a@x.com", "pw"), 100).unwrap();
    let upd = UserUpdateReq { first_name: "X".to_string(), last_name: "Y".to_string() };
    let res = update_user(&mut repo, 1, &upd, 500).unwrap();
    assert_eq!(res.first_name, "X");
    assert_eq!(res.last_name, "Y");
    assert_eq!(res.email, "a@x.com");
    assert_eq!(res.created_at, 100);
    assert_eq!(res.updated_at, 500);
}

#[test]
fn user_list_route_keeps_store_order() {
    let mut repo = AuthRepo::new();
    sign_up(&mut repo, &create_req("A", "B", "a@x.com", "pw"), 100).unwrap();
    sign_up(&mut repo, &create_req("C", "D", "b@x.com", "pw"), 100).unwrap();
    let all = list_users(&repo);
    assert_eq!(all.data.len(), 2);
    assert_eq!(all.data[0].email, "a@x.com");
    assert_eq!(all.data[1].email, "b@x.com");

    delete_user(&mut repo, 1).unwrap();
    let all = list_users(&repo);
    assert_eq!(all.data.len(), 1);
    assert_eq!(all.data[0].email, "b@x.com");
}

#[test]
fn error_messages_are_generic() {
    // Internal errors never leak detail to the client.
    assert_eq!(ApiError::Storage.message(), "internal error");
    assert_eq!(ApiError::Hashing.message(), "internal error");
    assert_eq!(ApiError::Auth.message(), "unauthorized");
    assert_eq!(ApiError::NotFound.message(), "not found");
    assert_eq!(ApiError::Validation.message(), "bad request");
    assert_eq!(ApiError::Storage.status_code(), 500);
}
