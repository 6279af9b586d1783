use radrun_api::auth_repo::AuthRepo;
use radrun_api::auth_routes::{
    authenticated, get_me, login, logout, matches_unauthenticated_route, sign_up, LoginReq,
    RouteId, SignUpReq,
};
use radrun_api::error::ApiError;

fn sign_up_req(first: &str, last: &str, email: &str, password: &str) -> SignUpReq {
    SignUpReq {
        first_name: first.to_string(),
        last_name: last.to_string(),
        email: email.to_string(),
        password: password.to_string(),
    }
}

#[test]
fn sign_up_login_logout_scenario() {
    let mut repo = AuthRepo::new();
    let req = sign_up_req("A", "B", "a@b.com", "pw");

    let res = sign_up(&mut repo, &req, 1_000).expect("fresh sign-up succeeds");
    assert_eq!(res.user.email, "a@b.com");
    assert_eq!(res.user.first_name, "A");
    assert_eq!(res.user.last_name, "B");
    assert_eq!(res.session.expires_at, 1_000 + 604_800);
    let sign_up_token = res.session.session_id;

    let login_res = login(
        &mut repo,
        &LoginReq { email: "a@b.com".to_string(), password: "pw".to_string() },
        2_000,
    )
    .expect("login with the same credentials succeeds");
    assert_ne!(login_res.session_id, sign_up_token);
    assert_eq!(login_res.expires_at, 2_000 + 604_800);

    let out = logout(&mut repo, Some(sign_up_token)).expect("logout deletes the session");
    assert_eq!(out.session_id, sign_up_token);

    // The sign-up cookie no longer authenticates.
    let decision = authenticated(&repo, RouteId::AuthMe, Some(sign_up_token));
    assert!(matches!(decision, Err(ApiError::Auth)));
    assert_eq!(ApiError::Auth.status_code(), 401);

    // The login session still does.
    let decision = authenticated(&repo, RouteId::AuthMe, Some(login_res.session_id));
    let user = decision.expect("live session resolves").expect("a user is attached");
    assert_eq!(user.email, "a@b.com");
    let me = get_me(&user);
    assert_eq!(me.email, "a@b.com");
    assert_eq!(me.id, user.id);
}

#[test]
fn duplicate_sign_up_conflicts() {
    let mut repo = AuthRepo::new();
    sign_up(&mut repo, &sign_up_req("A", "B", "a@b.com", "pw"), 10).expect("first sign-up");
    let second = sign_up(&mut repo, &sign_up_req("C", "D", "a@b.com", "other"), 20);
    match second {
        Err(e) => {
            assert_eq!(e, ApiError::Conflict);
            assert_eq!(e.status_code(), 409);
            assert_eq!(e.message(), "conflict");
        }
        Ok(_) => panic!("second sign-up with the same email must fail"),
    }
    // The failed sign-up created nothing.
    assert_eq!(repo.user_store.rows.len(), 1);
    assert_eq!(repo.session_store.rows.len(), 1);
}

#[test]
fn sign_up_creates_exactly_one_user_and_one_session() {
    let mut repo = AuthRepo::new();
    let res = sign_up(&mut repo, &sign_up_req("A", "B", "a@b.com", "pw"), 10).unwrap();
    assert_eq!(repo.user_store.rows.len(), 1);
    assert_eq!(repo.session_store.rows.len(), 1);
    assert_eq!(repo.user_store.rows[0].id, res.user.id);
    assert_eq!(repo.session_store.rows[0].id, res.session.session_id);
    assert_eq!(repo.session_store.rows[0].user_id, res.user.id);
    assert_eq!(repo.user_store.rows[0].created_at, 10);
    assert_eq!(repo.user_store.rows[0].updated_at, 10);
}

#[test]
fn login_fails_closed_on_unknown_email_and_wrong_password() {
    let mut repo = AuthRepo::new();
    sign_up(&mut repo, &sign_up_req("A", "B", "a@b.com", "pw"), 10).unwrap();

    let unknown = login(
        &mut repo,
        &LoginReq { email: "nobody@b.com".to_string(), password: "pw".to_string() },
        20,
    );
    let wrong = login(
        &mut repo,
        &LoginReq { email: "a@b.com".to_string(), password: "not-pw".to_string() },
        20,
    );
    // The same auth error either way: nothing reveals which condition failed.
    assert!(matches!(unknown, Err(ApiError::Auth)));
    assert!(matches!(wrong, Err(ApiError::Auth)));
    // No session was created by the failures.
    assert_eq!(repo.session_store.rows.len(), 1);
}

#[test]
fn logout_without_cookie_is_bad_request() {
    let mut repo = AuthRepo::new();
    let r = logout(&mut repo, None);
    assert!(matches!(r, Err(ApiError::Validation)));
    assert_eq!(ApiError::Validation.status_code(), 400);
}

#[test]
fn logout_with_unknown_token_is_not_found() {
    let mut repo = AuthRepo::new();
    let r = logout(&mut repo, Some(12345));
    assert!(matches!(r, Err(ApiError::NotFound)));
}

#[test]
fn deleting_a_session_keeps_its_owner() {
    let mut repo = AuthRepo::new();
    let res = sign_up(&mut repo, &sign_up_req("A", "B", "a@b.com", "pw"), 10).unwrap();
    let token = res.session.session_id;

    assert!(repo.get_user_by_session_id(token).is_ok());
    repo.delete_session(token).expect("session existed");

    // Resolving the deleted token fails with not-found ...
    let resolved = repo.get_user_by_session_id(token);
    assert!(matches!(resolved, Err(ApiError::NotFound)));
    // ... and resolving it again still fails: deleted and never-existed look alike.
    assert!(matches!(repo.get_user_by_session_id(token), Err(ApiError::NotFound)));

    // The owning user is untouched.
    assert_eq!(repo.user_store.rows.len(), 1);
    assert!(repo.get_user(res.user.id).is_ok());
}

#[test]
fn allow_list_is_exactly_login_and_sign_up() {
    assert!(matches_unauthenticated_route(&RouteId::AuthLogin));
    assert!(matches_unauthenticated_route(&RouteId::AuthSignUp));
    assert!(!matches_unauthenticated_route(&RouteId::AuthMe));
    assert!(!matches_unauthenticated_route(&RouteId::AuthLogout));
    assert!(!matches_unauthenticated_route(&RouteId::UserList));
    assert!(!matches_unauthenticated_route(&RouteId::AccountGet));
    assert!(!matches_unauthenticated_route(&RouteId::Health));
}

#[test]
fn allow_listed_routes_pass_without_a_token() {
    let repo = AuthRepo::new();
    let r = authenticated(&repo, RouteId::AuthLogin, None);
    assert!(matches!(r, Ok(None)));
    let r = authenticated(&repo, RouteId::AuthSignUp, None);
    assert!(matches!(r, Ok(None)));
    // Every other route is rejected without a token.
    let r = authenticated(&repo, RouteId::UserGet, None);
    assert!(matches!(r, Err(ApiError::Auth)));
}

#[test]
fn two_logins_give_two_distinct_sessions() {
    let mut repo = AuthRepo::new();
    sign_up(&mut repo, &sign_up_req("A", "B", "a@b.com", "pw"), 10).unwrap();
    let req = LoginReq { email: "a@b.com".to_string(), password: "pw".to_string() };
    let s1 = login(&mut repo, &req, 20).unwrap();
    let s2 = login(&mut repo, &req, 30).unwrap();
    assert_ne!(s1.session_id, s2.session_id);
    assert_eq!(repo.session_store.rows.len(), 3);
    // One entity may hold several concurrent sessions; both resolve to it.
    let u1 = repo.get_user_by_session_id(s1.session_id).unwrap();
    let u2 = repo.get_user_by_session_id(s2.session_id).unwrap();
    assert_eq!(u1.id, u2.id);
}
