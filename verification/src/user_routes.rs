use vstd::prelude::*;

use crate::auth_repo::AuthRepo;
use crate::error::ApiError;
use crate::hashing::{hash, phc_matches, phc_valid};
use crate::user_store::{user_has_email, user_has_id, user_idx_of_id, UserInsert, UserRow, UserUpdate};

verus! {

/// The user-creation request body.
pub struct UserCreateReq {
    pub first_name: String,
    pub last_name: String,
    pub email: String,
    pub password: String,
}

/// The user-update request body: only the name fields.
pub struct UserUpdateReq {
    pub first_name: String,
    pub last_name: String,
}

impl UserUpdateReq {
    /// The store-level update parameters for this request.
    pub fn to(&self) -> (u: UserUpdate)
        ensures
            u.first_name == self.first_name,
            u.last_name == self.last_name,
    {
        UserUpdate { first_name: self.first_name.clone(), last_name: self.last_name.clone() }
    }
}

/// The public projection of a user row: every field except the password
/// hash, which never leaves the service.
pub struct UserRes {
    pub id: i64,
    pub first_name: String,
    pub last_name: String,
    pub email: String,
    pub created_at: i64,
    pub updated_at: i64,
}

/// Whether a response is the public projection of a row.
pub open spec fn user_res_matches_row(res: UserRes, row: UserRow) -> bool {
    &&& res.id == row.id
    &&& res.first_name == row.first_name
    &&& res.last_name == row.last_name
    &&& res.email == row.email
    &&& res.created_at == row.created_at
    &&& res.updated_at == row.updated_at
}

impl UserRes {
    /// Projects a row to its public fields; the password hash is dropped.
    pub fn from(row: &UserRow) -> (r: UserRes)
        ensures
            user_res_matches_row(r, *row),
    {
        UserRes {
            id: row.id,
            first_name: row.first_name.clone(),
            last_name: row.last_name.clone(),
            email: row.email.clone(),
            created_at: row.created_at,
            updated_at: row.updated_at,
        }
    }
}

/// The list response: the public projections, in store order.
pub struct UsersRes {
    pub data: Vec<UserRes>,
}

impl UsersRes {
    /// Projects every row; order is kept.
    pub fn from(rows: &Vec<UserRow>) -> (r: UsersRes)
        ensures
            r.data@.len() == rows@.len(),
            forall|i: int|
                0 <= i < rows@.len() ==> user_res_matches_row(#[trigger] r.data@[i], rows@[i]),
    {
        let mut data: Vec<UserRes> = Vec::new();
        let mut i: usize = 0;
        while i < rows.len()
            invariant
                i <= rows@.len(),
                data@.len() == i,
                forall|j: int|
                    0 <= j < i ==> user_res_matches_row(#[trigger] data@[j], rows@[j]),
            decreases rows@.len() - i,
        {
            data.push(UserRes::from(&rows[i]));
            i += 1;
        }
        UsersRes { data }
    }
}

/// The user-creation route (registered as the sign-up of the user router):
/// hash the password, insert the row, return the public projection. A
/// duplicate email reports `Conflict`; the response never carries the hash.
pub fn sign_up(repo: &mut AuthRepo, req: &UserCreateReq, now: i64) -> (r: Result<UserRes, ApiError>)
    requires
        old(repo).wf(),
    ensures
        final(repo).wf(),
        final(repo).session_store == old(repo).session_store,
        r is Err ==> *final(repo) == *old(repo),
        r == Err::<UserRes, ApiError>(ApiError::Conflict) <==> user_has_email(
            old(repo).user_store.rows@,
            req.email@,
        ),
        r matches Err(e) ==> (e == ApiError::Conflict || e == ApiError::Hashing || e
            == ApiError::Storage),
        r matches Ok(res) ==> ({
            let row = final(repo).user_store.rows@.last();
            &&& !user_has_email(old(repo).user_store.rows@, req.email@)
            &&& final(repo).user_store.rows@ == old(repo).user_store.rows@.push(row)
            &&& row.id == old(repo).user_store.next_id
            &&& row.first_name@ == req.first_name@
            &&& row.last_name@ == req.last_name@
            &&& row.email@ == req.email@
            &&& phc_valid(row.password_hash@)
            &&& phc_matches(req.password@, row.password_hash@)
            &&& row.created_at == now
            &&& row.updated_at == now
            &&& user_res_matches_row(res, row)
        }),
{
    if repo.user_store.contains_email(&req.email) {
        return Err(ApiError::Conflict);
    }
    let password_hash = match hash(req.password.as_str()) {
        Ok(h) => h,
        Err(e) => {
            return Err(e);
        },
    };
    let row = match repo.create_user(
        UserInsert {
            first_name: req.first_name.clone(),
            last_name: req.last_name.clone(),
            email: req.email.clone(),
            password_hash,
        },
        now,
    ) {
        Ok(u) => u,
        Err(e) => {
            return Err(e);
        },
    };
    Ok(UserRes::from(&row))
}

/// The user-read route. Fails with `NotFound` iff the identifier is absent;
/// on success the response is the full public projection of the row.
pub fn get_user(repo: &AuthRepo, id: i64) -> (r: Result<UserRes, ApiError>)
    requires
        repo.wf(),
    ensures
        r is Ok <==> user_has_id(repo.user_store.rows@, id),
        r matches Err(e) ==> e == ApiError::NotFound,
        r matches Ok(res) ==> ({
            let i = user_idx_of_id(repo.user_store.rows@, id);
            &&& 0 <= i < repo.user_store.rows@.len()
            &&& user_res_matches_row(res, repo.user_store.rows@[i])
            &&& res.id == id
        }),
{
    match repo.get_user(id) {
        Ok(row) => Ok(UserRes::from(&row)),
        Err(e) => Err(e),
    }
}

/// The user-update route. Fails with `NotFound` iff the identifier is
/// absent; on success only the name fields and `updated_at` change.
pub fn update_user(repo: &mut AuthRepo, id: i64, req: &UserUpdateReq, now: i64) -> (r: Result<
    UserRes,
    ApiError,
>)
    requires
        old(repo).wf(),
    ensures
        final(repo).wf(),
        final(repo).session_store == old(repo).session_store,
        r is Err <==> !user_has_id(old(repo).user_store.rows@, id),
        r matches Err(e) ==> e == ApiError::NotFound && *final(repo) == *old(repo),
        r matches Ok(res) ==> ({
            let i = user_idx_of_id(old(repo).user_store.rows@, id);
            let row = final(repo).user_store.rows@[i];
            &&& 0 <= i < old(repo).user_store.rows@.len()
            &&& final(repo).user_store.rows@ == old(repo).user_store.rows@.update(i, row)
            &&& row.id == id
            &&& row.first_name@ == req.first_name@
            &&& row.last_name@ == req.last_name@
            &&& row.email == old(repo).user_store.rows@[i].email
            &&& row.password_hash == old(repo).user_store.rows@[i].password_hash
            &&& row.created_at == old(repo).user_store.rows@[i].created_at
            &&& row.updated_at == now
            &&& user_res_matches_row(res, row)
        }),
{
    match repo.update_user(id, req.to(), now) {
        Ok(row) => Ok(UserRes::from(&row)),
        Err(e) => Err(e),
    }
}

/// The user-delete route: removes the user and, with it, the user's
/// sessions. Fails with `NotFound` iff the identifier is absent; on success
/// the response is the projection of the deleted row.
pub fn delete_user(repo: &mut AuthRepo, id: i64) -> (r: Result<UserRes, ApiError>)
    requires
        old(repo).wf(),
    ensures
        final(repo).wf(),
        r is Err <==> !user_has_id(old(repo).user_store.rows@, id),
        r matches Err(e) ==> e == ApiError::NotFound && *final(repo) == *old(repo),
        r matches Ok(res) ==> ({
            let i = user_idx_of_id(old(repo).user_store.rows@, id);
            &&& 0 <= i < old(repo).user_store.rows@.len()
            &&& user_res_matches_row(res, old(repo).user_store.rows@[i])
            &&& res.id == id
            &&& final(repo).user_store.rows@ == old(repo).user_store.rows@.remove(i)
            &&& !user_has_id(final(repo).user_store.rows@, id)
        }),
{
    match repo.delete_user(id) {
        Ok(row) => Ok(UserRes::from(&row)),
        Err(e) => Err(e),
    }
}

/// The user-list route: every user's public projection, in store order.
pub fn list_users(repo: &AuthRepo) -> (r: UsersRes)
    ensures
        r.data@.len() == repo.user_store.rows@.len(),
        forall|i: int|
            0 <= i < repo.user_store.rows@.len() ==> user_res_matches_row(
                #[trigger] r.data@[i],
                repo.user_store.rows@[i],
            ),
{
    UsersRes::from(&repo.list_users())
}

} // verus!
