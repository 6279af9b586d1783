use radrun_api::auth_repo::AuthRepo;
use radrun_api::error::ApiError;
use radrun_api::hashing::hash;
use radrun_api::user_store::UserInsert;

fn insert(email: &str, password_hash: &str) -> UserInsert {
    UserInsert {
        first_name: "A".to_string(),
        last_name: "B".to_string(),
        email: email.to_string(),
        password_hash: password_hash.to_string(),
    }
}

#[test]
fn sign_up_hashed_is_deterministic_in_token_and_hash() {
    let mut repo = AuthRepo::new();
    let res = repo.sign_up_hashed(insert("a@x.com", "h1"), 7, 100).unwrap();
    assert_eq!(res.user.id, 1);
    assert_eq!(res.user.password_hash, "h1");
    assert_eq!(res.session.id, 7);
    assert_eq!(res.session.user_id, 1);
    assert_eq!(res.session.created_at, 100);

    // A colliding token is an internal storage failure, and nothing changes.
    let r = repo.sign_up_hashed(insert("b@x.com", "h2"), 7, 200);
    assert!(matches!(r, Err(ApiError::Storage)));
    assert_eq!(repo.user_store.rows.len(), 1);
    assert_eq!(repo.session_store.rows.len(), 1);

    // A duplicate email conflicts even with a fresh token.
    let r = repo.sign_up_hashed(insert("a@x.com", "h3"), 8, 200);
    assert!(matches!(r, Err(ApiError::Conflict)));
    assert_eq!(repo.user_store.rows.len(), 1);
}

#[test]
fn login_with_token_succeeds_exactly_on_good_credentials_and_fresh_token() {
    let mut repo = AuthRepo::new();
    let password_hash = hash("pw").unwrap();
    repo.sign_up_hashed(insert("a@x.com", &password_hash), 7, 100).unwrap();

    let email = "a@x.com".to_string();

    // Good credentials, fresh token: a session appears.
    let s = repo
        .login_with_token(&email, &"pw".to_string(), 9, 200)
        .unwrap();
    assert_eq!(s.id, 9);
    assert_eq!(s.user_id, 1);
    assert_eq!(s.created_at, 200);

    // Good credentials, colliding token: storage error, no new session.
    let r = repo.login_with_token(&email, &"pw".to_string(), 7, 300);
    assert!(matches!(r, Err(ApiError::Storage)));
    assert_eq!(repo.session_store.rows.len(), 2);

    // Wrong password or unknown email: the same auth error.
    let r = repo.login_with_token(&email, &"wrong".to_string(), 10, 300);
    assert!(matches!(r, Err(ApiError::Auth)));
    let r = repo.login_with_token(&"b@x.com".to_string(), &"pw".to_string(), 10, 300);
    assert!(matches!(r, Err(ApiError::Auth)));
}

#[test]
fn login_with_token_treats_malformed_stored_hash_as_bad_credentials() {
    let mut repo = AuthRepo::new();
    repo.sign_up_hashed(insert("a@x.com", "not a phc string"), 7, 100).unwrap();
    let r = repo.login_with_token(&"a@x.com".to_string(), &"pw".to_string(), 9, 200);
    assert!(matches!(r, Err(ApiError::Auth)));
    assert_eq!(repo.session_store.rows.len(), 1);
}
