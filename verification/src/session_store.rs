use vstd::prelude::*;

use crate::error::ApiError;

verus! {

/// A stored session row. `id` is the random 128-bit session token that the
/// client carries as its bearer credential; `user_id` is the owning user.
/// Timestamps are UTC seconds.
#[derive(Clone, Copy, PartialEq, Eq, Structural)]
pub struct SessionRow {
    pub id: u128,
    pub user_id: i64,
    pub created_at: i64,
    pub updated_at: i64,
}

/// The insert parameters: only the owning user; the caller supplies the
/// token separately.
pub struct InsertSession {
    pub user_id: i64,
}

/// Whether some session carries the given token.
pub open spec fn session_has_token(rows: Seq<SessionRow>, token: u128) -> bool {
    exists|i: int| 0 <= i < rows.len() && (#[trigger] rows[i]).id == token
}

/// The index of the session with the given token (meaningful only when
/// `session_has_token` holds; unique when tokens are unique).
pub open spec fn session_idx_of_token(rows: Seq<SessionRow>, token: u128) -> int {
    choose|i: int| 0 <= i < rows.len() && (#[trigger] rows[i]).id == token
}

/// The session table, in insertion order.
pub struct SessionStore {
    pub rows: Vec<SessionRow>,
}

impl SessionStore {
    /// Well-formed: tokens are unique.
    pub open spec fn wf(self) -> bool {
        forall|i: int, j: int|
            0 <= i < j < self.rows@.len() ==> (#[trigger] self.rows@[i]).id != (
            #[trigger] self.rows@[j]).id
    }

    /// An empty store.
    pub fn new() -> (s: SessionStore)
        ensures
            s.wf(),
            s.rows@ == Seq::<SessionRow>::empty(),
    {
        SessionStore { rows: Vec::new() }
    }

    fn find_by_token(&self, token: u128) -> (r: Option<usize>)
        ensures
            r matches Some(i) ==> 0 <= i < self.rows@.len() && self.rows@[i as int].id == token,
            r is None ==> !session_has_token(self.rows@, token),
    {
        let mut i: usize = 0;
        while i < self.rows.len()
            invariant
                i <= self.rows@.len(),
                forall|j: int| 0 <= j < i ==> (#[trigger] self.rows@[j]).id != token,
            decreases self.rows@.len() - i,
        {
            if self.rows[i].id == token {
                return Some(i);
            }
            i += 1;
        }
        None
    }

    /// Whether a session with this token exists.
    pub fn contains_token(&self, token: u128) -> (r: bool)
        ensures
            r == session_has_token(self.rows@, token),
    {
        match self.find_by_token(token) {
            Some(_) => true,
            None => false,
        }
    }

    /// Inserts a session with the given token, owner and timestamps. Fails
    /// with `Conflict` iff the token is already present; on failure nothing
    /// changes.
    pub fn create(&mut self, params: InsertSession, token: u128, now: i64) -> (r: Result<
        SessionRow,
        ApiError,
    >)
        requires
            old(self).wf(),
        ensures
            final(self).wf(),
            r is Err <==> session_has_token(old(self).rows@, token),
            r matches Err(e) ==> e == ApiError::Conflict && *final(self) == *old(self),
            r matches Ok(row) ==> {
                &&& row.id == token
                &&& row.user_id == params.user_id
                &&& row.created_at == now
                &&& row.updated_at == now
                &&& final(self).rows@ == old(self).rows@.push(row)
            },
    {
        if self.contains_token(token) {
            return Err(ApiError::Conflict);
        }
        let row = SessionRow { id: token, user_id: params.user_id, created_at: now, updated_at: now };
        self.rows.push(row);
        Ok(row)
    }

    /// Removes and returns the session with this token; afterwards no
    /// session carries it. Fails with `NotFound` iff the token is absent.
    pub fn delete(&mut self, token: u128) -> (r: Result<SessionRow, ApiError>)
        requires
            old(self).wf(),
        ensures
            final(self).wf(),
            r is Err <==> !session_has_token(old(self).rows@, token),
            r matches Err(e) ==> e == ApiError::NotFound && *final(self) == *old(self),
            r matches Ok(row) ==> ({
                let i = session_idx_of_token(old(self).rows@, token);
                &&& 0 <= i < old(self).rows@.len()
                &&& row == old(self).rows@[i]
                &&& row.id == token
                &&& final(self).rows@ == old(self).rows@.remove(i)
                &&& !session_has_token(final(self).rows@, token)
            }),
    {
        let i = match self.find_by_token(token) {
            Some(i) => i,
            None => {
                return Err(ApiError::NotFound);
            },
        };
        proof {
            lemma_session_token_index_unique(self.rows@, token, i as int);
        }
        let row = self.rows.remove(i);
        proof {
            assert forall|j: int| 0 <= j < self.rows@.len() implies (
            #[trigger] self.rows@[j]).id != token by {
                if j < i {
                    assert(self.rows@[j] == old(self).rows@[j]);
                } else {
                    assert(self.rows@[j] == old(self).rows@[j + 1]);
                }
            }
        }
        Ok(row)
    }

    /// Returns the session with this token. Fails with `NotFound` iff the
    /// token is absent.
    pub fn get(&self, token: u128) -> (r: Result<SessionRow, ApiError>)
        requires
            self.wf(),
        ensures
            r is Ok <==> session_has_token(self.rows@, token),
            r matches Err(e) ==> e == ApiError::NotFound,
            r matches Ok(row) ==> ({
                let i = session_idx_of_token(self.rows@, token);
                &&& 0 <= i < self.rows@.len()
                &&& row == self.rows@[i]
                &&& row.id == token
            }),
    {
        match self.find_by_token(token) {
            Some(i) => {
                proof {
                    lemma_session_token_index_unique(self.rows@, token, i as int);
                }
                Ok(self.rows[i])
            },
            None => Err(ApiError::NotFound),
        }
    }

    /// Removes every session owned by the given user; sessions of other
    /// users survive in order.
    pub fn delete_for_user(&mut self, user_id: i64)
        requires
            old(self).wf(),
        ensures
            final(self).wf(),
            final(self).rows@ == old(self).rows@.filter(|s: SessionRow| s.user_id != user_id),
    {
        let mut kept: Vec<SessionRow> = Vec::new();
        let mut i: usize = 0;
        proof {
            reveal(Seq::filter);
            assert(kept@ =~= self.rows@.subrange(0, 0).filter(|s: SessionRow| s.user_id != user_id));
        }
        while i < self.rows.len()
            invariant
                i <= self.rows@.len(),
                kept@ == self.rows@.subrange(0, i as int).filter(
                    |s: SessionRow| s.user_id != user_id,
                ),
                self.rows@ == old(self).rows@,
            decreases self.rows@.len() - i,
        {
            proof {
                reveal(Seq::filter);
                assert(self.rows@.subrange(0, i + 1).drop_last() =~= self.rows@.subrange(
                    0,
                    i as int,
                ));
                assert(self.rows@.subrange(0, i + 1).last() == self.rows@[i as int]);
            }
            if self.rows[i].user_id != user_id {
                kept.push(self.rows[i]);
            }
            i += 1;
        }
        proof {
            assert(self.rows@.subrange(0, self.rows@.len() as int) =~= self.rows@);
        }
        self.rows = kept;
        proof {
            lemma_session_filter_wf(old(self).rows@, |s: SessionRow| s.user_id != user_id);
        }
    }
}

/// With unique tokens, any index whose session carries `token` is the index
/// that `session_idx_of_token` picks.
proof fn lemma_session_token_index_unique(rows: Seq<SessionRow>, token: u128, i: int)
    requires
        forall|p: int, q: int|
            0 <= p < q < rows.len() ==> (#[trigger] rows[p]).id != (#[trigger] rows[q]).id,
        0 <= i < rows.len(),
        rows[i].id == token,
    ensures
        session_has_token(rows, token),
        session_idx_of_token(rows, token) == i,
{
    assert(session_has_token(rows, token));
    let j = session_idx_of_token(rows, token);
    assert(0 <= j < rows.len() && rows[j].id == token);
    if i < j {
        assert(rows[i].id != rows[j].id);
    } else if j < i {
        assert(rows[j].id != rows[i].id);
    }
}

/// Filtering a token-unique session sequence keeps tokens unique.
proof fn lemma_session_filter_wf(rows: Seq<SessionRow>, pred: spec_fn(SessionRow) -> bool)
    requires
        forall|p: int, q: int|
            0 <= p < q < rows.len() ==> (#[trigger] rows[p]).id != (#[trigger] rows[q]).id,
    ensures
        forall|p: int, q: int|
            0 <= p < q < rows.filter(pred).len() ==> (#[trigger] rows.filter(pred)[p]).id != (
            #[trigger] rows.filter(pred)[q]).id,
    decreases rows.len(),
{
    reveal(Seq::filter);
    if rows.len() > 0 {
        let prefix = rows.drop_last();
        lemma_session_filter_wf(prefix, pred);
        if pred(rows.last()) {
            assert(rows.filter(pred) == prefix.filter(pred).push(rows.last()));
            assert forall|p: int|
                0 <= p < prefix.filter(pred).len() implies (#[trigger] prefix.filter(pred)[p]).id
                != rows.last().id by {
                lemma_session_filter_member(prefix, pred, p);
            }
        }
    }
}

/// Every member of a filtered sequence is a member of the original.
pub proof fn lemma_session_filter_member(
    rows: Seq<SessionRow>,
    pred: spec_fn(SessionRow) -> bool,
    p: int,
)
    requires
        0 <= p < rows.filter(pred).len(),
    ensures
        exists|k: int| 0 <= k < rows.len() && #[trigger] rows[k] == rows.filter(pred)[p],
    decreases rows.len(),
{
    reveal(Seq::filter);
    if rows.len() > 0 {
        let prefix = rows.drop_last();
        if pred(rows.last()) && p == rows.filter(pred).len() - 1 {
            assert(rows[rows.len() - 1] == rows.filter(pred)[p]);
        } else {
            lemma_session_filter_member(prefix, pred, p);
            let k = choose|k: int|
                0 <= k < prefix.len() && #[trigger] prefix[k] == prefix.filter(pred)[p];
            assert(rows[k] == rows.filter(pred)[p]);
        }
    }
}

} // verus!
