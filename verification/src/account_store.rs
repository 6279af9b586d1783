use vstd::prelude::*;

use crate::error::ApiError;

verus! {

/// A stored account row. `created_at` and `updated_at` are UTC timestamps in
/// seconds; the store assigns `id` and both timestamps on insert and
/// refreshes `updated_at` on update.
pub struct AccountRow {
    pub id: i64,
    pub first_name: String,
    pub last_name: String,
    pub email: String,
    pub password_hash: String,
    pub created_at: i64,
    pub updated_at: i64,
}

impl AccountRow {
    /// A field-for-field copy of the row.
    pub fn duplicate(&self) -> (r: AccountRow)
        ensures
            r == *self,
    {
        AccountRow {
            id: self.id,
            first_name: self.first_name.clone(),
            last_name: self.last_name.clone(),
            email: self.email.clone(),
            password_hash: self.password_hash.clone(),
            created_at: self.created_at,
            updated_at: self.updated_at,
        }
    }
}

/// The insert parameters: everything the caller chooses at creation time.
pub struct InsertAccount {
    pub first_name: String,
    pub last_name: String,
    pub email: String,
    pub password_hash: String,
}

/// The update parameters: only the name fields are mutable after creation.
pub struct UpdateAccount {
    pub first_name: String,
    pub last_name: String,
}

/// Whether some row carries the given identifier.
pub open spec fn account_has_id(rows: Seq<AccountRow>, id: i64) -> bool {
    exists|i: int| 0 <= i < rows.len() && (#[trigger] rows[i]).id == id
}

/// Whether some row carries the given email.
pub open spec fn account_has_email(rows: Seq<AccountRow>, email: Seq<char>) -> bool {
    exists|i: int| 0 <= i < rows.len() && (#[trigger] rows[i]).email@ == email
}

/// The index of the row with the given identifier (meaningful only when
/// `account_has_id` holds; unique when identifiers are unique).
pub open spec fn account_idx_of_id(rows: Seq<AccountRow>, id: i64) -> int {
    choose|i: int| 0 <= i < rows.len() && (#[trigger] rows[i]).id == id
}

/// The index of the row with the given email (meaningful only when
/// `account_has_email` holds; unique when emails are unique).
pub open spec fn account_idx_of_email(rows: Seq<AccountRow>, email: Seq<char>) -> int {
    choose|i: int| 0 <= i < rows.len() && (#[trigger] rows[i]).email@ == email
}

/// The account table: the rows in insertion order, plus the next identifier to
/// assign.
pub struct AccountStore {
    pub rows: Vec<AccountRow>,
    pub next_id: i64,
}

impl AccountStore {
    /// Well-formed: identifiers are unique, positive and below `next_id`;
    /// emails are unique.
    pub open spec fn wf(self) -> bool {
        &&& 1 <= self.next_id
        &&& forall|i: int| 0 <= i < self.rows@.len() ==> 1 <= (#[trigger] self.rows@[i]).id
            < self.next_id
        &&& forall|i: int, j: int|
            0 <= i < j < self.rows@.len() ==> (#[trigger] self.rows@[i]).id != (
            #[trigger] self.rows@[j]).id
        &&& forall|i: int, j: int|
            0 <= i < j < self.rows@.len() ==> (#[trigger] self.rows@[i]).email@ != (
            #[trigger] self.rows@[j]).email@
    }

    /// An empty store; the first identifier it assigns is 1.
    pub fn new() -> (s: AccountStore)
        ensures
            s.wf(),
            s.rows@ == Seq::<AccountRow>::empty(),
            s.next_id == 1,
    {
        AccountStore { rows: Vec::new(), next_id: 1 }
    }

    fn find_by_id(&self, id: i64) -> (r: Option<usize>)
        ensures
            r matches Some(i) ==> 0 <= i < self.rows@.len() && self.rows@[i as int].id == id,
            r is None ==> !account_has_id(self.rows@, id),
    {
        let mut i: usize = 0;
        while i < self.rows.len()
            invariant
                i <= self.rows@.len(),
                forall|j: int| 0 <= j < i ==> (#[trigger] self.rows@[j]).id != id,
            decreases self.rows@.len() - i,
        {
            if self.rows[i].id == id {
                return Some(i);
            }
            i += 1;
        }
        None
    }

    fn find_by_email(&self, email: &String) -> (r: Option<usize>)
        ensures
            r matches Some(i) ==> 0 <= i < self.rows@.len() && self.rows@[i as int].email@
                == email@,
            r is None ==> !account_has_email(self.rows@, email@),
    {
        let mut i: usize = 0;
        while i < self.rows.len()
            invariant
                i <= self.rows@.len(),
                forall|j: int| 0 <= j < i ==> (#[trigger] self.rows@[j]).email@ != email@,
            decreases self.rows@.len() - i,
        {
            if self.rows[i].email == *email {
                return Some(i);
            }
            i += 1;
        }
        None
    }

    /// Whether a row with this email exists.
    pub fn contains_email(&self, email: &String) -> (r: bool)
        ensures
            r == account_has_email(self.rows@, email@),
    {
        match self.find_by_email(email) {
            Some(_) => true,
            None => false,
        }
    }

    /// Inserts a row with a fresh identifier and server-assigned timestamps.
    /// Fails with `Conflict` iff the email is already taken, and with
    /// `Storage` iff the identifier space is exhausted; on failure nothing
    /// changes.
    pub fn create(&mut self, params: InsertAccount, now: i64) -> (r: Result<AccountRow, ApiError>)
        requires
            old(self).wf(),
        ensures
            final(self).wf(),
            r == Err::<AccountRow, ApiError>(ApiError::Conflict) <==> account_has_email(
                old(self).rows@,
                params.email@,
            ),
            r == Err::<AccountRow, ApiError>(ApiError::Storage) <==> (!account_has_email(
                old(self).rows@,
                params.email@,
            ) && old(self).next_id == i64::MAX),
            r is Ok <==> (!account_has_email(old(self).rows@, params.email@) && old(self).next_id
                < i64::MAX),
            r is Err ==> *final(self) == *old(self),
            r matches Ok(row) ==> {
                &&& row.id == old(self).next_id
                &&& row.first_name == params.first_name
                &&& row.last_name == params.last_name
                &&& row.email == params.email
                &&& row.password_hash == params.password_hash
                &&& row.created_at == now
                &&& row.updated_at == now
                &&& final(self).rows@ == old(self).rows@.push(row)
                &&& final(self).next_id == old(self).next_id + 1
            },
    {
        if self.contains_email(&params.email) {
            return Err(ApiError::Conflict);
        }
        if self.next_id == i64::MAX {
            return Err(ApiError::Storage);
        }
        let row = AccountRow {
            id: self.next_id,
            first_name: params.first_name,
            last_name: params.last_name,
            email: params.email,
            password_hash: params.password_hash,
            created_at: now,
            updated_at: now,
        };
        let result = row.duplicate();
        self.rows.push(row);
        self.next_id = self.next_id + 1;
        Ok(result)
    }

    /// Replaces the name fields of the row with this identifier and
    /// refreshes its `updated_at`; everything else, and every other row, is
    /// unchanged. Fails with `NotFound` iff the identifier is absent.
    pub fn update(&mut self, id: i64, params: UpdateAccount, now: i64) -> (r: Result<
        AccountRow,
        ApiError,
    >)
        requires
            old(self).wf(),
        ensures
            final(self).wf(),
            r is Err <==> !account_has_id(old(self).rows@, id),
            r matches Err(e) ==> e == ApiError::NotFound && *final(self) == *old(self),
            r matches Ok(row) ==> ({
                let i = account_idx_of_id(old(self).rows@, id);
                &&& 0 <= i < old(self).rows@.len()
                &&& old(self).rows@[i].id == id
                &&& row.id == id
                &&& row.first_name == params.first_name
                &&& row.last_name == params.last_name
                &&& row.email == old(self).rows@[i].email
                &&& row.password_hash == old(self).rows@[i].password_hash
                &&& row.created_at == old(self).rows@[i].created_at
                &&& row.updated_at == now
                &&& final(self).rows@ == old(self).rows@.update(i, row)
                &&& final(self).next_id == old(self).next_id
            }),
    {
        let i = match self.find_by_id(id) {
            Some(i) => i,
            None => {
                return Err(ApiError::NotFound);
            },
        };
        proof {
            lemma_account_id_index_unique(self.rows@, id, i as int);
        }
        let row = AccountRow {
            id: self.rows[i].id,
            first_name: params.first_name,
            last_name: params.last_name,
            email: self.rows[i].email.clone(),
            password_hash: self.rows[i].password_hash.clone(),
            created_at: self.rows[i].created_at,
            updated_at: now,
        };
        let result = row.duplicate();
        self.rows[i] = row;
        Ok(result)
    }

    /// Removes and returns the row with this identifier; every other row is
    /// unchanged. Fails with `NotFound` iff the identifier is absent.
    pub fn delete(&mut self, id: i64) -> (r: Result<AccountRow, ApiError>)
        requires
            old(self).wf(),
        ensures
            final(self).wf(),
            r is Err <==> !account_has_id(old(self).rows@, id),
            r matches Err(e) ==> e == ApiError::NotFound && *final(self) == *old(self),
            r matches Ok(row) ==> ({
                let i = account_idx_of_id(old(self).rows@, id);
                &&& 0 <= i < old(self).rows@.len()
                &&& row == old(self).rows@[i]
                &&& row.id == id
                &&& final(self).rows@ == old(self).rows@.remove(i)
                &&& final(self).next_id == old(self).next_id
                &&& !account_has_id(final(self).rows@, id)
            }),
    {
        let i = match self.find_by_id(id) {
            Some(i) => i,
            None => {
                return Err(ApiError::NotFound);
            },
        };
        proof {
            lemma_account_id_index_unique(self.rows@, id, i as int);
        }
        let row = self.rows.remove(i);
        proof {
            assert forall|j: int| 0 <= j < self.rows@.len() implies (
            #[trigger] self.rows@[j]).id != id by {
                if j < i {
                    assert(self.rows@[j] == old(self).rows@[j]);
                } else {
                    assert(self.rows@[j] == old(self).rows@[j + 1]);
                }
            }
        }
        Ok(row)
    }

    /// Returns a copy of the row with this identifier, fully populated.
    /// Fails with `NotFound` iff the identifier is absent.
    pub fn get_id(&self, id: i64) -> (r: Result<AccountRow, ApiError>)
        requires
            self.wf(),
        ensures
            r is Ok <==> account_has_id(self.rows@, id),
            r matches Err(e) ==> e == ApiError::NotFound,
            r matches Ok(row) ==> ({
                let i = account_idx_of_id(self.rows@, id);
                &&& 0 <= i < self.rows@.len()
                &&& row == self.rows@[i]
                &&& row.id == id
            }),
    {
        match self.find_by_id(id) {
            Some(i) => {
                proof {
                    lemma_account_id_index_unique(self.rows@, id, i as int);
                }
                Ok(self.rows[i].duplicate())
            },
            None => Err(ApiError::NotFound),
        }
    }

    /// Returns a copy of the row with this email, fully populated. Fails
    /// with `NotFound` iff the email is absent.
    pub fn get_email(&self, email: &String) -> (r: Result<AccountRow, ApiError>)
        requires
            self.wf(),
        ensures
            r is Ok <==> account_has_email(self.rows@, email@),
            r matches Err(e) ==> e == ApiError::NotFound,
            r matches Ok(row) ==> ({
                let i = account_idx_of_email(self.rows@, email@);
                &&& 0 <= i < self.rows@.len()
                &&& row == self.rows@[i]
                &&& row.email@ == email@
            }),
    {
        match self.find_by_email(email) {
            Some(i) => {
                proof {
                    lemma_account_email_index_unique(self.rows@, email@, i as int);
                }
                Ok(self.rows[i].duplicate())
            },
            None => Err(ApiError::NotFound),
        }
    }

    /// Returns copies of all rows, in insertion order.
    pub fn list(&self) -> (r: Vec<AccountRow>)
        ensures
            r@ == self.rows@,
    {
        let mut out: Vec<AccountRow> = Vec::new();
        let mut i: usize = 0;
        while i < self.rows.len()
            invariant
                i <= self.rows@.len(),
                out@ == self.rows@.subrange(0, i as int),
            decreases self.rows@.len() - i,
        {
            out.push(self.rows[i].duplicate());
            proof {
                assert(out@ =~= self.rows@.subrange(0, i + 1));
            }
            i += 1;
        }
        proof {
            assert(out@ =~= self.rows@);
        }
        out
    }
}

/// With unique identifiers, any index whose row carries `id` is the index
/// that `account_idx_of_id` picks.
proof fn lemma_account_id_index_unique(rows: Seq<AccountRow>, id: i64, i: int)
    requires
        forall|p: int, q: int|
            0 <= p < q < rows.len() ==> (#[trigger] rows[p]).id != (#[trigger] rows[q]).id,
        0 <= i < rows.len(),
        rows[i].id == id,
    ensures
        account_has_id(rows, id),
        account_idx_of_id(rows, id) == i,
{
    assert(account_has_id(rows, id));
    let j = account_idx_of_id(rows, id);
    assert(0 <= j < rows.len() && rows[j].id == id);
    if i < j {
        assert(rows[i].id != rows[j].id);
    } else if j < i {
        assert(rows[j].id != rows[i].id);
    }
}

/// With unique emails, any index whose row carries `email` is the index
/// that `account_idx_of_email` picks.
proof fn lemma_account_email_index_unique(rows: Seq<AccountRow>, email: Seq<char>, i: int)
    requires
        forall|p: int, q: int|
            0 <= p < q < rows.len() ==> (#[trigger] rows[p]).email@ != (#[trigger] rows[q]).email@,
        0 <= i < rows.len(),
        rows[i].email@ == email,
    ensures
        account_has_email(rows, email),
        account_idx_of_email(rows, email) == i,
{
    assert(account_has_email(rows, email));
    let j = account_idx_of_email(rows, email);
    assert(0 <= j < rows.len() && rows[j].email@ == email);
    if i < j {
        assert(rows[i].email@ != rows[j].email@);
    } else if j < i {
        assert(rows[j].email@ != rows[i].email@);
    }
}

} // verus!
