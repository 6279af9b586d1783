use vstd::prelude::*;

use crate::account_store::{
    account_has_email, account_has_id, account_idx_of_id, AccountRow, AccountStore, InsertAccount,
    UpdateAccount,
};
use crate::error::ApiError;
use crate::hashing::{hash, phc_matches, phc_valid};

verus! {

/// The account-creation request body.
pub struct CreateAccountReq {
    pub first_name: String,
    pub last_name: String,
    pub email: String,
    pub password: String,
}

/// The account-update request body: only the name fields.
pub struct UpdateAccountReq {
    pub first_name: String,
    pub last_name: String,
}

impl UpdateAccountReq {
    /// The store-level update parameters for this request.
    pub fn to(&self) -> (u: UpdateAccount)
        ensures
            u.first_name == self.first_name,
            u.last_name == self.last_name,
    {
        UpdateAccount { first_name: self.first_name.clone(), last_name: self.last_name.clone() }
    }
}

/// The public projection of an account row: every field except the
/// password hash, which never leaves the service.
pub struct AccountRes {
    pub id: i64,
    pub first_name: String,
    pub last_name: String,
    pub email: String,
    pub created_at: i64,
    pub updated_at: i64,
}

/// Whether a response is the public projection of a row.
pub open spec fn account_res_matches_row(res: AccountRes, row: AccountRow) -> bool {
    &&& res.id == row.id
    &&& res.first_name == row.first_name
    &&& res.last_name == row.last_name
    &&& res.email == row.email
    &&& res.created_at == row.created_at
    &&& res.updated_at == row.updated_at
}

impl AccountRes {
    /// Projects a row to its public fields; the password hash is dropped.
    pub fn from(row: &AccountRow) -> (r: AccountRes)
        ensures
            account_res_matches_row(r, *row),
    {
        AccountRes {
            id: row.id,
            first_name: row.first_name.clone(),
            last_name: row.last_name.clone(),
            email: row.email.clone(),
            created_at: row.created_at,
            updated_at: row.updated_at,
        }
    }
}

/// The list response: the public projections, in store order.
pub struct AccountsRes {
    pub data: Vec<AccountRes>,
}

impl AccountsRes {
    /// Projects every row; order is kept.
    pub fn from(rows: &Vec<AccountRow>) -> (r: AccountsRes)
        ensures
            r.data@.len() == rows@.len(),
            forall|i: int|
                0 <= i < rows@.len() ==> account_res_matches_row(#[trigger] r.data@[i], rows@[i]),
    {
        let mut data: Vec<AccountRes> = Vec::new();
        let mut i: usize = 0;
        while i < rows.len()
            invariant
                i <= rows@.len(),
                data@.len() == i,
                forall|j: int|
                    0 <= j < i ==> account_res_matches_row(#[trigger] data@[j], rows@[j]),
            decreases rows@.len() - i,
        {
            data.push(AccountRes::from(&rows[i]));
            i += 1;
        }
        AccountsRes { data }
    }
}

/// The account-creation route: hash the password, insert the row, return
/// the public projection. A duplicate email reports `Conflict`; the
/// response never carries the hash.
pub fn create_account(store: &mut AccountStore, req: &CreateAccountReq, now: i64) -> (r: Result<
    AccountRes,
    ApiError,
>)
    requires
        old(store).wf(),
    ensures
        final(store).wf(),
        r is Err ==> *final(store) == *old(store),
        r == Err::<AccountRes, ApiError>(ApiError::Conflict) <==> account_has_email(
            old(store).rows@,
            req.email@,
        ),
        r matches Err(e) ==> (e == ApiError::Conflict || e == ApiError::Hashing || e
            == ApiError::Storage),
        r matches Ok(res) ==> ({
            let row = final(store).rows@.last();
            &&& !account_has_email(old(store).rows@, req.email@)
            &&& final(store).rows@ == old(store).rows@.push(row)
            &&& row.id == old(store).next_id
            &&& row.first_name@ == req.first_name@
            &&& row.last_name@ == req.last_name@
            &&& row.email@ == req.email@
            &&& phc_valid(row.password_hash@)
            &&& phc_matches(req.password@, row.password_hash@)
            &&& row.created_at == now
            &&& row.updated_at == now
            &&& account_res_matches_row(res, row)
        }),
{
    if store.contains_email(&req.email) {
        return Err(ApiError::Conflict);
    }
    let password_hash = match hash(req.password.as_str()) {
        Ok(h) => h,
        Err(e) => {
            return Err(e);
        },
    };
    let row = match store.create(
        InsertAccount {
            first_name: req.first_name.clone(),
            last_name: req.last_name.clone(),
            email: req.email.clone(),
            password_hash,
        },
        now,
    ) {
        Ok(u) => u,
        Err(e) => {
            return Err(e);
        },
    };
    Ok(AccountRes::from(&row))
}

/// The account-read route. Fails with `NotFound` iff the identifier is
/// absent; on success the response is the full public projection.
pub fn get_account(store: &AccountStore, id: i64) -> (r: Result<AccountRes, ApiError>)
    requires
        store.wf(),
    ensures
        r is Ok <==> account_has_id(store.rows@, id),
        r matches Err(e) ==> e == ApiError::NotFound,
        r matches Ok(res) ==> ({
            let i = account_idx_of_id(store.rows@, id);
            &&& 0 <= i < store.rows@.len()
            &&& account_res_matches_row(res, store.rows@[i])
            &&& res.id == id
        }),
{
    match store.get_id(id) {
        Ok(row) => Ok(AccountRes::from(&row)),
        Err(e) => Err(e),
    }
}

/// The account-update route. Fails with `NotFound` iff the identifier is
/// absent; on success only the name fields and `updated_at` change.
pub fn update_account(store: &mut AccountStore, id: i64, req: &UpdateAccountReq, now: i64) -> (r:
    Result<AccountRes, ApiError>)
    requires
        old(store).wf(),
    ensures
        final(store).wf(),
        r is Err <==> !account_has_id(old(store).rows@, id),
        r matches Err(e) ==> e == ApiError::NotFound && *final(store) == *old(store),
        r matches Ok(res) ==> ({
            let i = account_idx_of_id(old(store).rows@, id);
            let row = final(store).rows@[i];
            &&& 0 <= i < old(store).rows@.len()
            &&& final(store).rows@ == old(store).rows@.update(i, row)
            &&& row.id == id
            &&& row.first_name@ == req.first_name@
            &&& row.last_name@ == req.last_name@
            &&& row.email == old(store).rows@[i].email
            &&& row.password_hash == old(store).rows@[i].password_hash
            &&& row.created_at == old(store).rows@[i].created_at
            &&& row.updated_at == now
            &&& account_res_matches_row(res, row)
        }),
{
    match store.update(id, req.to(), now) {
        Ok(row) => Ok(AccountRes::from(&row)),
        Err(e) => Err(e),
    }
}

/// The account-delete route. Fails with `NotFound` iff the identifier is
/// absent; on success the response is the projection of the deleted row.
pub fn delete_account(store: &mut AccountStore, id: i64) -> (r: Result<AccountRes, ApiError>)
    requires
        old(store).wf(),
    ensures
        final(store).wf(),
        r is Err <==> !account_has_id(old(store).rows@, id),
        r matches Err(e) ==> e == ApiError::NotFound && *final(store) == *old(store),
        r matches Ok(res) ==> ({
            let i = account_idx_of_id(old(store).rows@, id);
            &&& 0 <= i < old(store).rows@.len()
            &&& account_res_matches_row(res, old(store).rows@[i])
            &&& res.id == id
            &&& final(store).rows@ == old(store).rows@.remove(i)
            &&& !account_has_id(final(store).rows@, id)
        }),
{
    match store.delete(id) {
        Ok(row) => Ok(AccountRes::from(&row)),
        Err(e) => Err(e),
    }
}

/// The account-list route: every account's public projection, in store
/// order.
pub fn list_accounts(store: &AccountStore) -> (r: AccountsRes)
    ensures
        r.data@.len() == store.rows@.len(),
        forall|i: int|
            0 <= i < store.rows@.len() ==> account_res_matches_row(
                #[trigger] r.data@[i],
                store.rows@[i],
            ),
{
    AccountsRes::from(&store.list())
}

} // verus!
