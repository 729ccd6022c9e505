use vstd::prelude::*;
use crate::model::{User, UserView, UserJson, UserNew};
use crate::errors::StoreError;

verus! {

/// The users table: rows in insertion order, and the identifier the next
/// inserted row will receive. Identifiers are assigned monotonically by the
/// store itself; rows are never updated or deleted.
pub struct Store {
    pub rows: Vec<User>,
    pub next_id: i32,
}

/// The abstract value of a [`Store`].
#[verifier::ext_equal]
pub struct StoreView {
    pub rows: Seq<UserView>,
    pub next_id: int,
}

impl View for Store {
    type V = StoreView;

    open spec fn view(&self) -> StoreView {
        StoreView {
            rows: self.rows@.map_values(|u: User| u@),
            next_id: self.next_id as int,
        }
    }
}

impl Store {
    /// Well-formedness: the counter stays in range, every stored identifier
    /// was assigned below the counter, identifiers strictly increase in
    /// insertion order (hence are unique), and every row carries a non-empty
    /// creation timestamp.
    pub open spec fn wf(self) -> bool {
        &&& 1 <= self@.next_id <= i32::MAX
        &&& forall|i: int| 0 <= i < self@.rows.len() ==> 1 <= #[trigger] self@.rows[i].id < self@.next_id
        &&& forall|i: int, j: int|
            0 <= i < j < self@.rows.len() ==> #[trigger] self@.rows[i].id < #[trigger] self@.rows[j].id
        &&& forall|i: int| 0 <= i < self@.rows.len() ==> #[trigger] self@.rows[i].date_created.len() > 0
    }

    /// An empty store whose first assigned identifier is 1.
    pub fn new() -> (r: Store)
        ensures
            r.wf(),
            r@.rows.len() == 0,
            r@.next_id == 1,
    {
        Store { rows: Vec::new(), next_id: 1 }
    }

    /// Inserts a row built from the submitted credentials and a freshly
    /// generated creation timestamp, and returns the inserted row. Fails
    /// exactly when the identifier counter is exhausted, leaving the store
    /// unchanged.
    pub fn insert_user(&mut self, input: UserJson) -> (r: Result<User, StoreError>)
        requires
            old(self).wf(),
        ensures
            final(self).wf(),
            r is Ok <==> old(self)@.next_id < i32::MAX,
            r is Err ==> *final(self) == *old(self) && r == Err::<User, StoreError>(StoreError::QueryError),
            r is Ok ==> {
                &&& r->Ok_0@.id == old(self)@.next_id
                &&& r->Ok_0@.email == input.email@
                &&& r->Ok_0@.password == input.password@
                &&& r->Ok_0@.date_created.len() > 0
                &&& final(self)@.rows == old(self)@.rows.push(r->Ok_0@)
                &&& final(self)@.next_id == old(self)@.next_id + 1
            },
    {
        if self.next_id == i32::MAX {
            return Err(StoreError::QueryError);
        }
        let ts = crate::clock::now_timestamp();
        let nu = UserNew { email: input.email, password: input.password, date_created: ts };
        let row = User {
            id: self.next_id,
            email: nu.email,
            password: nu.password,
            date_created: nu.date_created,
        };
        let out = row.duplicate();
        self.rows.push(row);
        self.next_id = self.next_id + 1;
        proof {
            assert(self@.rows =~= old(self)@.rows.push(out@));
        }
        Ok(out)
    }

    /// Returns all rows, in the store's natural (insertion) order.
    pub fn list_users(&self) -> (r: &Vec<User>)
        ensures
            r@.map_values(|u: User| u@) == self@.rows,
    {
        &self.rows
    }
}

} // verus!
