use vstd::prelude::*;

use crate::error::ApiError;
use crate::hashing::{hash, phc_matches, phc_valid};
use crate::session_store::{
    lemma_session_filter_member, session_has_token, session_idx_of_token, InsertSession,
    SessionRow, SessionStore,
};
use crate::user_store::{
    user_has_email, user_has_id, user_idx_of_email, user_idx_of_id, UserInsert, UserRow, UserStore,
    UserUpdate,
};

verus! {

/// The sign-up request after validation: names, email and the plaintext
/// password.
pub struct SignUpParams {
    pub first_name: String,
    pub last_name: String,
    pub email: String,
    pub password: String,
}

/// What a successful sign-up produced: the new user row and its first
/// session.
pub struct SignUpResult {
    pub user: UserRow,
    pub session: SessionRow,
}

/// Whether `(email, password)` are good credentials against the user rows:
/// a row with that email exists, its stored hash is well-formed, and the
/// password matches it. Exactly the condition under which login succeeds.
pub open spec fn good_credentials(rows: Seq<UserRow>, email: Seq<char>, password: Seq<char>) -> bool {
    &&& user_has_email(rows, email)
    &&& phc_valid(rows[user_idx_of_email(rows, email)].password_hash@)
    &&& phc_matches(password, rows[user_idx_of_email(rows, email)].password_hash@)
}

/// The authentication service: the user table and the session table,
/// mutated together so that every session always references an existing
/// user.
pub struct AuthRepo {
    pub user_store: UserStore,
    pub session_store: SessionStore,
}

impl AuthRepo {
    /// Well-formed: both stores are, and every session's owner exists.
    pub open spec fn wf(self) -> bool {
        &&& self.user_store.wf()
        &&& self.session_store.wf()
        &&& forall|i: int|
            0 <= i < self.session_store.rows@.len() ==> user_has_id(
                self.user_store.rows@,
                (#[trigger] self.session_store.rows@[i]).user_id,
            )
    }

    /// An empty service.
    pub fn new() -> (s: AuthRepo)
        ensures
            s.wf(),
            s.user_store.rows@ == Seq::<UserRow>::empty(),
            s.session_store.rows@ == Seq::<SessionRow>::empty(),
            s.user_store.next_id == 1,
    {
        AuthRepo { user_store: UserStore::new(), session_store: SessionStore::new() }
    }

    /// Relies on `uuid::Uuid::new_v4` and `Uuid::as_u128`: a freshly drawn
    /// random 128-bit session token. Nothing is assumed of its value; the
    /// callers state what holds whatever comes back.
    #[verifier::external_body]
    fn fresh_token() -> u128 {
        uuid::Uuid::new_v4().as_u128()
    }

    /// Sign-up with the password hash and the session token fixed by the
    /// caller: the deterministic core of `sign_up`. Creates exactly one user
    /// and exactly one session, or changes nothing.
    pub fn sign_up_hashed(&mut self, params: UserInsert, token: u128, now: i64) -> (r: Result<
        SignUpResult,
        ApiError,
    >)
        requires
            old(self).wf(),
        ensures
            final(self).wf(),
            r is Err ==> *final(self) == *old(self),
            r == Err::<SignUpResult, ApiError>(ApiError::Conflict) <==> user_has_email(
                old(self).user_store.rows@,
                params.email@,
            ),
            r == Err::<SignUpResult, ApiError>(ApiError::Storage) <==> (!user_has_email(
                old(self).user_store.rows@,
                params.email@,
            ) && (old(self).user_store.next_id == i64::MAX || session_has_token(
                old(self).session_store.rows@,
                token,
            ))),
            r is Ok <==> (!user_has_email(old(self).user_store.rows@, params.email@) && old(
                self,
            ).user_store.next_id < i64::MAX && !session_has_token(
                old(self).session_store.rows@,
                token,
            )),
            r matches Ok(res) ==> {
                &&& res.user.id == old(self).user_store.next_id
                &&& res.user.first_name == params.first_name
                &&& res.user.last_name == params.last_name
                &&& res.user.email == params.email
                &&& res.user.password_hash == params.password_hash
                &&& res.user.created_at == now
                &&& res.user.updated_at == now
                &&& res.session.id == token
                &&& res.session.user_id == res.user.id
                &&& res.session.created_at == now
                &&& res.session.updated_at == now
                &&& final(self).user_store.rows@ == old(self).user_store.rows@.push(res.user)
                &&& final(self).user_store.next_id == old(self).user_store.next_id + 1
                &&& final(self).session_store.rows@ == old(self).session_store.rows@.push(
                    res.session,
                )
            },
    {
        if self.user_store.contains_email(&params.email) {
            return Err(ApiError::Conflict);
        }
        if self.session_store.contains_token(token) {
            return Err(ApiError::Storage);
        }
        let user = match self.user_store.create(params, now) {
            Ok(u) => u,
            Err(e) => {
                return Err(e);
            },
        };
        let session = match self.session_store.create(
            InsertSession { user_id: user.id },
            token,
            now,
        ) {
            Ok(s) => s,
            Err(_) => {
                return Err(ApiError::Storage);
            },
        };
        proof {
            self.lemma_wf_after_push(old(self), user, session);
        }
        Ok(SignUpResult { user, session })
    }

    proof fn lemma_wf_after_push(
        self,
        before: &AuthRepo,
        user: UserRow,
        session: SessionRow,
    )
        requires
            before.wf(),
            self.user_store.wf(),
            self.session_store.wf(),
            self.user_store.rows@ == before.user_store.rows@.push(user),
            self.session_store.rows@ == before.session_store.rows@.push(session),
            session.user_id == user.id,
        ensures
            self.wf(),
    {
        assert forall|j: int| 0 <= j < self.session_store.rows@.len() implies user_has_id(
            self.user_store.rows@,
            (#[trigger] self.session_store.rows@[j]).user_id,
        ) by {
            let n = before.session_store.rows@.len() as int;
            if j < n {
                let uid = before.session_store.rows@[j].user_id;
                assert(user_has_id(before.user_store.rows@, uid));
                let k = choose|k: int|
                    0 <= k < before.user_store.rows@.len() && (
                    #[trigger] before.user_store.rows@[k]).id == uid;
                assert(self.user_store.rows@[k].id == uid);
            } else {
                let m = before.user_store.rows@.len() as int;
                assert(self.user_store.rows@[m].id == session.user_id);
            }
        }
    }

    /// Sign-up: hash the password, then create the user and its first
    /// session. Fails with `Conflict` iff the email is taken, with `Hashing`
    /// on an internal hashing failure, and with `Storage` on identifier or
    /// token exhaustion; on failure nothing changes.
    pub fn sign_up(&mut self, params: SignUpParams, now: i64) -> (r: Result<SignUpResult, ApiError>)
        requires
            old(self).wf(),
        ensures
            final(self).wf(),
            r is Err ==> *final(self) == *old(self),
            r == Err::<SignUpResult, ApiError>(ApiError::Conflict) <==> user_has_email(
                old(self).user_store.rows@,
                params.email@,
            ),
            r matches Err(e) ==> (e == ApiError::Conflict || e == ApiError::Hashing || e
                == ApiError::Storage),
            r matches Ok(res) ==> {
                &&& !user_has_email(old(self).user_store.rows@, params.email@)
                &&& res.user.id == old(self).user_store.next_id
                &&& res.user.first_name == params.first_name
                &&& res.user.last_name == params.last_name
                &&& res.user.email == params.email
                &&& phc_valid(res.user.password_hash@)
                &&& phc_matches(params.password@, res.user.password_hash@)
                &&& res.user.created_at == now
                &&& res.user.updated_at == now
                &&& res.session.user_id == res.user.id
                &&& res.session.created_at == now
                &&& res.session.updated_at == now
                &&& !session_has_token(old(self).session_store.rows@, res.session.id)
                &&& final(self).user_store.rows@ == old(self).user_store.rows@.push(res.user)
                &&& final(self).user_store.next_id == old(self).user_store.next_id + 1
                &&& final(self).session_store.rows@ == old(self).session_store.rows@.push(
                    res.session,
                )
            },
    {
        if self.user_store.contains_email(&params.email) {
            return Err(ApiError::Conflict);
        }
        let password_hash = match hash(params.password.as_str()) {
            Ok(h) => h,
            Err(e) => {
                return Err(e);
            },
        };
        let token = Self::fresh_token();
        self.sign_up_hashed(
            UserInsert {
                first_name: params.first_name,
                last_name: params.last_name,
                email: params.email,
                password_hash,
            },
            token,
            now,
        )
    }

    /// Login with the session token fixed by the caller: the deterministic
    /// core of `login`. Fails with `Auth` iff the credentials are bad — the
    /// error does not reveal whether the email was unknown, the stored hash
    /// malformed, or the password wrong.
    pub fn login_with_token(
        &mut self,
        email: &String,
        password: &String,
        token: u128,
        now: i64,
    ) -> (r: Result<SessionRow, ApiError>)
        requires
            old(self).wf(),
        ensures
            final(self).wf(),
            final(self).user_store == old(self).user_store,
            r is Err ==> *final(self) == *old(self),
            r == Err::<SessionRow, ApiError>(ApiError::Auth) <==> !good_credentials(
                old(self).user_store.rows@,
                email@,
                password@,
            ),
            r == Err::<SessionRow, ApiError>(ApiError::Storage) <==> (good_credentials(
                old(self).user_store.rows@,
                email@,
                password@,
            ) && session_has_token(old(self).session_store.rows@, token)),
            r is Ok <==> (good_credentials(old(self).user_store.rows@, email@, password@)
                && !session_has_token(old(self).session_store.rows@, token)),
            r matches Ok(s) ==> {
                &&& s.id == token
                &&& s.user_id == old(self).user_store.rows@[user_idx_of_email(
                    old(self).user_store.rows@,
                    email@,
                )].id
                &&& s.created_at == now
                &&& s.updated_at == now
                &&& final(self).session_store.rows@ == old(self).session_store.rows@.push(s)
            },
    {
        let user = match self.user_store.get_email(email) {
            Ok(u) => u,
            Err(_) => {
                return Err(ApiError::Auth);
            },
        };
        let matched = match crate::hashing::verify(password.as_str(), user.password_hash.as_str()) {
            Ok(b) => b,
            Err(_) => {
                return Err(ApiError::Auth);
            },
        };
        if !matched {
            return Err(ApiError::Auth);
        }
        match self.session_store.create(InsertSession { user_id: user.id }, token, now) {
            Ok(s) => {
                proof {
                    let i = user_idx_of_email(old(self).user_store.rows@, email@);
                    assert forall|j: int| 0 <= j < self.session_store.rows@.len() implies
                        user_has_id(
                        self.user_store.rows@,
                        (#[trigger] self.session_store.rows@[j]).user_id,
                    ) by {
                        if j < old(self).session_store.rows@.len() {
                            assert(user_has_id(
                                old(self).user_store.rows@,
                                old(self).session_store.rows@[j].user_id,
                            ));
                        } else {
                            assert(self.user_store.rows@[i].id == s.user_id);
                        }
                    }
                }
                Ok(s)
            },
            Err(_) => Err(ApiError::Storage),
        }
    }

    /// Login: look the user up by email, verify the password against the
    /// stored hash, and create a fresh session. Succeeds exactly on good
    /// credentials (up to random-token exhaustion, reported as `Storage`).
    pub fn login(&mut self, email: &String, password: &String, now: i64) -> (r: Result<
        SessionRow,
        ApiError,
    >)
        requires
            old(self).wf(),
        ensures
            final(self).wf(),
            final(self).user_store == old(self).user_store,
            r is Err ==> *final(self) == *old(self),
            r == Err::<SessionRow, ApiError>(ApiError::Auth) <==> !good_credentials(
                old(self).user_store.rows@,
                email@,
                password@,
            ),
            r matches Err(e) ==> (e == ApiError::Auth || e == ApiError::Storage),
            r matches Ok(s) ==> {
                &&& s.user_id == old(self).user_store.rows@[user_idx_of_email(
                    old(self).user_store.rows@,
                    email@,
                )].id
                &&& s.created_at == now
                &&& s.updated_at == now
                &&& !session_has_token(old(self).session_store.rows@, s.id)
                &&& final(self).session_store.rows@ == old(self).session_store.rows@.push(s)
            },
    {
        let token = Self::fresh_token();
        self.login_with_token(email, password, token, now)
    }

    /// Logout: delete the session with this token. Never touches the user
    /// table; afterwards the token resolves to nothing. Fails with
    /// `NotFound` iff the token is absent.
    pub fn delete_session(&mut self, token: u128) -> (r: Result<SessionRow, ApiError>)
        requires
            old(self).wf(),
        ensures
            final(self).wf(),
            final(self).user_store == old(self).user_store,
            r is Ok <==> session_has_token(old(self).session_store.rows@, token),
            r matches Err(e) ==> e == ApiError::NotFound && *final(self) == *old(self),
            r matches Ok(row) ==> ({
                let i = session_idx_of_token(old(self).session_store.rows@, token);
                &&& 0 <= i < old(self).session_store.rows@.len()
                &&& row == old(self).session_store.rows@[i]
                &&& row.id == token
                &&& final(self).session_store.rows@ == old(self).session_store.rows@.remove(i)
                &&& !session_has_token(final(self).session_store.rows@, token)
            }),
    {
        let r = self.session_store.delete(token);
        proof {
            if r is Ok {
                let i = session_idx_of_token(old(self).session_store.rows@, token);
                assert forall|j: int| 0 <= j < self.session_store.rows@.len() implies user_has_id(
                    self.user_store.rows@,
                    (#[trigger] self.session_store.rows@[j]).user_id,
                ) by {
                    if j < i {
                        assert(self.session_store.rows@[j] == old(self).session_store.rows@[j]);
                    } else {
                        assert(self.session_store.rows@[j] == old(self).session_store.rows@[j + 1]);
                    }
                }
            }
        }
        r
    }

    /// What resolving a token yields: the owning user's row if a session
    /// carries the token, `NotFound` otherwise.
    pub open spec fn spec_resolve_session(self, token: u128) -> Result<UserRow, ApiError> {
        if !session_has_token(self.session_store.rows@, token) {
            Err(ApiError::NotFound)
        } else {
            let s = self.session_store.rows@[session_idx_of_token(
                self.session_store.rows@,
                token,
            )];
            if user_has_id(self.user_store.rows@, s.user_id) {
                Ok(
                    self.user_store.rows@[user_idx_of_id(self.user_store.rows@, s.user_id)],
                )
            } else {
                Err(ApiError::NotFound)
            }
        }
    }

    /// Resolve a session token to the owning user. Fails with `NotFound`
    /// iff no session carries the token — whether it never existed or was
    /// already deleted is not distinguished.
    pub fn get_user_by_session_id(&self, token: u128) -> (r: Result<UserRow, ApiError>)
        requires
            self.wf(),
        ensures
            r == self.spec_resolve_session(token),
            r is Ok <==> session_has_token(self.session_store.rows@, token),
    {
        let session = match self.session_store.get(token) {
            Ok(s) => s,
            Err(e) => {
                return Err(e);
            },
        };
        match self.user_store.get_id(session.user_id) {
            Ok(u) => Ok(u),
            Err(e) => Err(e),
        }
    }
    /// Creates a user through the service; sessions are untouched, so every
    /// session still references an existing user.
    pub fn create_user(&mut self, params: UserInsert, now: i64) -> (r: Result<UserRow, ApiError>)
        requires
            old(self).wf(),
        ensures
            final(self).wf(),
            final(self).session_store == old(self).session_store,
            r == Err::<UserRow, ApiError>(ApiError::Conflict) <==> user_has_email(
                old(self).user_store.rows@,
                params.email@,
            ),
            r is Ok <==> (!user_has_email(old(self).user_store.rows@, params.email@) && old(
                self,
            ).user_store.next_id < i64::MAX),
            r matches Err(e) ==> (e == ApiError::Conflict || e == ApiError::Storage) && *final(self)
                == *old(self),
            r matches Ok(row) ==> {
                &&& row.id == old(self).user_store.next_id
                &&& row.first_name == params.first_name
                &&& row.last_name == params.last_name
                &&& row.email == params.email
                &&& row.password_hash == params.password_hash
                &&& row.created_at == now
                &&& row.updated_at == now
                &&& final(self).user_store.rows@ == old(self).user_store.rows@.push(row)
                &&& final(self).user_store.next_id == old(self).user_store.next_id + 1
            },
    {
        let r = self.user_store.create(params, now);
        proof {
            if r is Ok {
                assert forall|j: int| 0 <= j < self.session_store.rows@.len() implies user_has_id(
                    self.user_store.rows@,
                    (#[trigger] self.session_store.rows@[j]).user_id,
                ) by {
                    let uid = self.session_store.rows@[j].user_id;
                    assert(user_has_id(old(self).user_store.rows@, uid));
                    let k = choose|k: int|
                        0 <= k < old(self).user_store.rows@.len() && (#[trigger] old(
                            self,
                        ).user_store.rows@[k]).id == uid;
                    assert(self.user_store.rows@[k].id == uid);
                }
            }
        }
        r
    }

    /// Updates a user's name fields through the service. Identifiers do not
    /// change, so every session still references an existing user.
    pub fn update_user(&mut self, id: i64, params: UserUpdate, now: i64) -> (r: Result<
        UserRow,
        ApiError,
    >)
        requires
            old(self).wf(),
        ensures
            final(self).wf(),
            final(self).session_store == old(self).session_store,
            r is Err <==> !user_has_id(old(self).user_store.rows@, id),
            r matches Err(e) ==> e == ApiError::NotFound && *final(self) == *old(self),
            r matches Ok(row) ==> ({
                let i = user_idx_of_id(old(self).user_store.rows@, id);
                &&& 0 <= i < old(self).user_store.rows@.len()
                &&& row.id == id
                &&& row.first_name == params.first_name
                &&& row.last_name == params.last_name
                &&& row.email == old(self).user_store.rows@[i].email
                &&& row.password_hash == old(self).user_store.rows@[i].password_hash
                &&& row.created_at == old(self).user_store.rows@[i].created_at
                &&& row.updated_at == now
                &&& final(self).user_store.rows@ == old(self).user_store.rows@.update(i, row)
                &&& final(self).user_store.next_id == old(self).user_store.next_id
            }),
    {
        let r = self.user_store.update(id, params, now);
        proof {
            if r is Ok {
                let i = user_idx_of_id(old(self).user_store.rows@, id);
                assert forall|j: int| 0 <= j < self.session_store.rows@.len() implies user_has_id(
                    self.user_store.rows@,
                    (#[trigger] self.session_store.rows@[j]).user_id,
                ) by {
                    let uid = self.session_store.rows@[j].user_id;
                    assert(user_has_id(old(self).user_store.rows@, uid));
                    let k = choose|k: int|
                        0 <= k < old(self).user_store.rows@.len() && (#[trigger] old(
                            self,
                        ).user_store.rows@[k]).id == uid;
                    assert(self.user_store.rows@[k].id == uid);
                }
            }
        }
        r
    }

    /// Deletes a user through the service and, with it, every session the
    /// user owned — deleting the user must not leave sessions that resolve
    /// to nothing, so the deletion cascades.
    pub fn delete_user(&mut self, id: i64) -> (r: Result<UserRow, ApiError>)
        requires
            old(self).wf(),
        ensures
            final(self).wf(),
            r is Err <==> !user_has_id(old(self).user_store.rows@, id),
            r matches Err(e) ==> e == ApiError::NotFound && *final(self) == *old(self),
            r matches Ok(row) ==> ({
                let i = user_idx_of_id(old(self).user_store.rows@, id);
                &&& 0 <= i < old(self).user_store.rows@.len()
                &&& row == old(self).user_store.rows@[i]
                &&& row.id == id
                &&& final(self).user_store.rows@ == old(self).user_store.rows@.remove(i)
                &&& final(self).user_store.next_id == old(self).user_store.next_id
                &&& final(self).session_store.rows@ == old(self).session_store.rows@.filter(
                    |s: SessionRow| s.user_id != id,
                )
                &&& !user_has_id(final(self).user_store.rows@, id)
            }),
    {
        let row = match self.user_store.delete(id) {
            Ok(row) => row,
            Err(e) => {
                return Err(e);
            },
        };
        self.session_store.delete_for_user(row.id);
        proof {
            let i = user_idx_of_id(old(self).user_store.rows@, id);
            let pred = |s: SessionRow| s.user_id != id;
            assert forall|j: int| 0 <= j < self.session_store.rows@.len() implies user_has_id(
                self.user_store.rows@,
                (#[trigger] self.session_store.rows@[j]).user_id,
            ) by {
                let olds = old(self).session_store.rows@;
                olds.lemma_filter_pred(pred, j);
                lemma_session_filter_member(olds, pred, j);
                let p = choose|p: int|
                    0 <= p < olds.len() && #[trigger] olds[p] == olds.filter(pred)[j];
                let uid = self.session_store.rows@[j].user_id;
                assert(user_has_id(old(self).user_store.rows@, uid));
                let k = choose|k: int|
                    0 <= k < old(self).user_store.rows@.len() && (#[trigger] old(
                        self,
                    ).user_store.rows@[k]).id == uid;
                if k < i {
                    assert(self.user_store.rows@[k].id == uid);
                } else {
                    assert(old(self).user_store.rows@[i].id == id);
                    assert(uid != id);
                    assert(self.user_store.rows@[k - 1].id == uid);
                }
            }
        }
        Ok(row)
    }

    /// Returns the user with this identifier. Fails with `NotFound` iff the
    /// identifier is absent.
    pub fn get_user(&self, id: i64) -> (r: Result<UserRow, ApiError>)
        requires
            self.wf(),
        ensures
            r is Ok <==> user_has_id(self.user_store.rows@, id),
            r matches Err(e) ==> e == ApiError::NotFound,
            r matches Ok(row) ==> ({
                let i = user_idx_of_id(self.user_store.rows@, id);
                &&& 0 <= i < self.user_store.rows@.len()
                &&& row == self.user_store.rows@[i]
                &&& row.id == id
            }),
    {
        self.user_store.get_id(id)
    }

    /// Returns copies of all users, in insertion order.
    pub fn list_users(&self) -> (r: Vec<UserRow>)
        ensures
            r@ == self.user_store.rows@,
    {
        self.user_store.list()
    }
}

/// Law: once no session carries a token, resolving that token fails with
/// `NotFound` — in particular right after `delete_session` succeeded on it —
/// while the user table is untouched by the deletion.
pub proof fn lemma_deleted_session_unresolvable(repo: AuthRepo, token: u128)
    requires
        !session_has_token(repo.session_store.rows@, token),
    ensures
        repo.spec_resolve_session(token) == Err::<UserRow, ApiError>(ApiError::NotFound),
{
}

} // verus!
