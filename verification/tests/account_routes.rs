use radrun_api::account_routes::{
    create_account, delete_account, get_account, list_accounts, update_account, CreateAccountReq,
    UpdateAccountReq,
};
use radrun_api::account_store::AccountStore;
use radrun_api::error::ApiError;
use radrun_api::hashing::verify;

fn create_req(first: &str, last: &str, email: &str, password: &str) -> CreateAccountReq {
    CreateAccountReq {
        first_name: first.to_string(),
        last_name: last.to_string(),
        email: email.to_string(),
        password: password.to_string(),
    }
}

#[test]
fn create_account_hashes_and_projects() {
    let mut store = AccountStore::new();
    let res = create_account(&mut store, &create_req("A", "B", "a@x.com", "pw"), 100).unwrap();
    assert_eq!(res.id, 1);
    assert_eq!(res.email, "a@x.com");
    assert_eq!(res.first_name, "A");
    assert_eq!(res.created_at, 100);
    // The stored hash is not the plaintext, and it verifies against it.
    let stored = &store.rows[0].password_hash;
    assert_ne!(stored, "pw");
    assert_eq!(verify("pw", stored), Ok(true));
    assert_eq!(verify("other", stored), Ok(false));
}

#[test]
fn create_account_with_taken_email_conflicts() {
    let mut store = AccountStore::new();
    create_account(&mut store, &create_req("A", "B", "a@x.com", "pw"), 100).unwrap();
    let r = create_account(&mut store, &create_req("C", "D", "a@x.com", "pw2"), 200);
    match r {
        Err(e) => assert_eq!(e.status_code(), 409),
        Ok(_) => panic!("duplicate email must conflict"),
    }
    assert_eq!(store.rows.len(), 1);
}

#[test]
fn account_crud_round_trip() {
    let mut store = AccountStore::new();
    create_account(&mut store, &create_req("A", "B", "a@x.com", "pw"), 100).unwrap();
    create_account(&mut store, &create_req("C", "D", "b@x.com", "pw"), 100).unwrap();

    let got = get_account(&store, 2).unwrap();
    assert_eq!(got.email, "b@x.com");

    let upd = UpdateAccountReq { first_name: "X".to_string(), last_name: "Y".to_string() };
    let updated = update_account(&mut store, 1, &upd, 500).unwrap();
    assert_eq!(updated.first_name, "X");
    assert_eq!(updated.last_name, "Y");
    assert_eq!(updated.email, "a@x.com");
    assert_eq!(updated.created_at, 100);
    assert_eq!(updated.updated_at, 500);

    let all = list_accounts(&store);
    assert_eq!(all.data.len(), 2);
    assert_eq!(all.data[0].first_name, "X");
    assert_eq!(all.data[1].email, "b@x.com");

    let deleted = delete_account(&mut store, 1).unwrap();
    assert_eq!(deleted.id, 1);
    assert_eq!(list_accounts(&store).data.len(), 1);
}

#[test]
fn account_lookup_by_email() {
    let mut store = AccountStore::new();
    create_account(&mut store, &create_req("A", "B", "a@x.com", "pw"), 100).unwrap();
    let row = store.get_email(&"a@x.com".to_string()).unwrap();
    assert_eq!(row.id, 1);
    assert_eq!(row.first_name, "A");
    assert!(matches!(
        store.get_email(&"missing@x.com".to_string()),
        Err(ApiError::NotFound)
    ));
}

#[test]
fn account_routes_on_absent_id_are_not_found() {
    let mut store = AccountStore::new();
    create_account(&mut store, &create_req("A", "B", "a@x.com", "pw"), 100).unwrap();
    assert!(matches!(get_account(&store, 9), Err(ApiError::NotFound)));
    let upd = UpdateAccountReq { first_name: "X".to_string(), last_name: "Y".to_string() };
    assert!(matches!(update_account(&mut store, 9, &upd, 1), Err(ApiError::NotFound)));
    assert!(matches!(delete_account(&mut store, 9), Err(ApiError::NotFound)));
    assert_eq!(ApiError::NotFound.status_code(), 404);
}
