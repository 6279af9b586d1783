use vstd::prelude::*;

use crate::auth_repo::{good_credentials, AuthRepo, SignUpParams};
use crate::error::ApiError;
use crate::session_store::session_has_token;
use crate::user_store::{user_has_email, user_idx_of_email, UserRow};
use crate::user_routes::{user_res_matches_row, UserRes};

verus! {

/// How long a session cookie is advertised to live, in seconds (seven
/// days). This is a client-side hint only: the server never expires
/// sessions, it deletes them at logout.
pub const SESSION_TTL_SECONDS: i64 = 604800;

/// The identity of each route of the HTTP surface, fixed at dispatch. The
/// allow-list below is a set of these identities, not string matching
/// against request paths, so it cannot drift from the route table.
#[derive(Clone, Copy, Debug, PartialEq, Eq, Structural)]
pub enum RouteId {
    AuthSignUp,
    AuthLogin,
    AuthLogout,
    AuthMe,
    UserCreate,
    UserList,
    UserGet,
    UserUpdate,
    UserDelete,
    AccountCreate,
    AccountList,
    AccountGet,
    AccountUpdate,
    AccountDelete,
    Health,
}

/// The allow-list: exactly login and sign-up are reachable without a
/// session.
pub fn matches_unauthenticated_route(route: &RouteId) -> (r: bool)
    ensures
        r == (*route is AuthLogin || *route is AuthSignUp),
{
    matches!(route, RouteId::AuthLogin | RouteId::AuthSignUp)
}

/// The guard run before every handler. Allow-listed routes pass through with
/// no user attached. Any other route needs a session token from the cookie:
/// a missing or unresolvable token is rejected with `Auth`, and a resolved
/// one hands the authenticated user to the handler explicitly.
pub fn authenticated(repo: &AuthRepo, route: RouteId, session_token: Option<u128>) -> (r: Result<
    Option<UserRow>,
    ApiError,
>)
    requires
        repo.wf(),
    ensures
        (route is AuthLogin || route is AuthSignUp) ==> r == Ok::<Option<UserRow>, ApiError>(None),
        !(route is AuthLogin || route is AuthSignUp) ==> match session_token {
            None => r == Err::<Option<UserRow>, ApiError>(ApiError::Auth),
            Some(t) => match repo.spec_resolve_session(t) {
                Ok(u) => r == Ok::<Option<UserRow>, ApiError>(Some(u)),
                Err(_) => r == Err::<Option<UserRow>, ApiError>(ApiError::Auth),
            },
        },
{
    if matches_unauthenticated_route(&route) {
        return Ok(None);
    }
    let token = match session_token {
        Some(t) => t,
        None => {
            return Err(ApiError::Auth);
        },
    };
    match repo.get_user_by_session_id(token) {
        Ok(u) => Ok(Some(u)),
        Err(_) => Err(ApiError::Auth),
    }
}

/// The login request body.
pub struct LoginReq {
    pub email: String,
    pub password: String,
}

/// The session issued to the client: its token and the advertised expiry.
#[derive(Clone, Copy, PartialEq, Eq, Structural)]
pub struct LoginRes {
    pub session_id: u128,
    pub expires_at: i64,
}

/// The sign-up request body.
pub struct SignUpReq {
    pub first_name: String,
    pub last_name: String,
    pub email: String,
    pub password: String,
}

impl SignUpReq {
    /// The service-level sign-up parameters for this request.
    pub fn to_params(&self) -> (p: SignUpParams)
        ensures
            p.first_name == self.first_name,
            p.last_name == self.last_name,
            p.email == self.email,
            p.password == self.password,
    {
        SignUpParams {
            email: self.email.clone(),
            first_name: self.first_name.clone(),
            last_name: self.last_name.clone(),
            password: self.password.clone(),
        }
    }
}

/// The sign-up response: the new user's public projection and its first
/// session. The password hash never appears here.
pub struct SignUpRes {
    pub user: UserRes,
    pub session: LoginRes,
}

/// The logout response: the token of the session that was just deleted.
#[derive(Clone, Copy, PartialEq, Eq, Structural)]
pub struct LogoutRes {
    pub session_id: u128,
}

/// The login route: authenticate against the stored hash and issue a fresh
/// session. Fails with `Auth` iff the credentials are bad, revealing
/// nothing about which part was wrong.
pub fn login(repo: &mut AuthRepo, req: &LoginReq, now: i64) -> (r: Result<LoginRes, ApiError>)
    requires
        old(repo).wf(),
        now <= i64::MAX - SESSION_TTL_SECONDS,
    ensures
        final(repo).wf(),
        final(repo).user_store == old(repo).user_store,
        r is Err ==> *final(repo) == *old(repo),
        r == Err::<LoginRes, ApiError>(ApiError::Auth) <==> !good_credentials(
            old(repo).user_store.rows@,
            req.email@,
            req.password@,
        ),
        r matches Err(e) ==> (e == ApiError::Auth || e == ApiError::Storage),
        r matches Ok(res) ==> ({
            let s = final(repo).session_store.rows@.last();
            &&& res.expires_at == now + SESSION_TTL_SECONDS
            &&& final(repo).session_store.rows@ == old(repo).session_store.rows@.push(s)
            &&& s.id == res.session_id
            &&& s.user_id == old(repo).user_store.rows@[user_idx_of_email(
                old(repo).user_store.rows@,
                req.email@,
            )].id
            &&& s.created_at == now
            &&& !session_has_token(old(repo).session_store.rows@, res.session_id)
        }),
{
    let session = match repo.login(&req.email, &req.password, now) {
        Ok(s) => s,
        Err(e) => {
            return Err(e);
        },
    };
    Ok(LoginRes { session_id: session.id, expires_at: now + SESSION_TTL_SECONDS })
}

/// The sign-up route: create the user and its first session, and return
/// the public projection plus the session. A duplicate email reports
/// `Conflict`; the response never carries the password or its hash.
pub fn sign_up(repo: &mut AuthRepo, req: &SignUpReq, now: i64) -> (r: Result<SignUpRes, ApiError>)
    requires
        old(repo).wf(),
        now <= i64::MAX - SESSION_TTL_SECONDS,
    ensures
        final(repo).wf(),
        r is Err ==> *final(repo) == *old(repo),
        r == Err::<SignUpRes, ApiError>(ApiError::Conflict) <==> user_has_email(
            old(repo).user_store.rows@,
            req.email@,
        ),
        r matches Err(e) ==> (e == ApiError::Conflict || e == ApiError::Hashing || e
            == ApiError::Storage),
        r matches Ok(res) ==> ({
            let row = final(repo).user_store.rows@.last();
            let s = final(repo).session_store.rows@.last();
            &&& !user_has_email(old(repo).user_store.rows@, req.email@)
            &&& final(repo).user_store.rows@ == old(repo).user_store.rows@.push(row)
            &&& final(repo).session_store.rows@ == old(repo).session_store.rows@.push(s)
            &&& row.id == old(repo).user_store.next_id
            &&& row.first_name@ == req.first_name@
            &&& row.last_name@ == req.last_name@
            &&& row.email@ == req.email@
            &&& row.created_at == now
            &&& row.updated_at == now
            &&& user_res_matches_row(res.user, row)
            &&& s.id == res.session.session_id
            &&& s.user_id == row.id
            &&& s.created_at == now
            &&& !session_has_token(old(repo).session_store.rows@, s.id)
            &&& res.session.expires_at == now + SESSION_TTL_SECONDS
        }),
{
    let result = match repo.sign_up(req.to_params(), now) {
        Ok(x) => x,
        Err(e) => {
            return Err(e);
        },
    };
    let user = UserRes::from(&result.user);
    Ok(
        SignUpRes {
            user,
            session: LoginRes {
                session_id: result.session.id,
                expires_at: now + SESSION_TTL_SECONDS,
            },
        },
    )
}

/// The logout route: a missing or unparseable cookie is a bad request; a
/// token that matches no session is not found; otherwise the session is
/// deleted and its token echoed back so the client can clear the cookie.
pub fn logout(repo: &mut AuthRepo, session_token: Option<u128>) -> (r: Result<LogoutRes, ApiError>)
    requires
        old(repo).wf(),
    ensures
        final(repo).wf(),
        final(repo).user_store == old(repo).user_store,
        r is Err ==> *final(repo) == *old(repo),
        session_token is None ==> r == Err::<LogoutRes, ApiError>(ApiError::Validation),
        session_token matches Some(t) ==> {
            &&& (r is Ok <==> session_has_token(old(repo).session_store.rows@, t))
            &&& (r matches Err(e) ==> e == ApiError::NotFound)
            &&& (r matches Ok(res) ==> res.session_id == t && !session_has_token(
                final(repo).session_store.rows@,
                t,
            ) && final(repo).session_store.rows@.len() + 1 == old(repo).session_store.rows@.len())
        },
{
    let token = match session_token {
        Some(t) => t,
        None => {
            return Err(ApiError::Validation);
        },
    };
    let session = match repo.delete_session(token) {
        Ok(s) => s,
        Err(e) => {
            return Err(e);
        },
    };
    Ok(LogoutRes { session_id: session.id })
}

/// The who-am-I route: the middleware has already resolved the user; this only
/// shapes the public response, which never carries the password hash.
pub fn get_me(current_user: &UserRow) -> (r: UserRes)
    ensures
        user_res_matches_row(r, *current_user),
{
    UserRes::from(current_user)
}

} // verus!
