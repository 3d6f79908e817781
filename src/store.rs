use vstd::prelude::*;
use crate::errors::ApiError;
use crate::user::{NewUser, User, UserRecord};

verus! {

/// The rows as records.
pub open spec fn records(users: Seq<User>) -> Seq<UserRecord> {
    users.map_values(|u: User| u@)
}

/// Some row has email `e`.
pub open spec fn has_email(rows: Seq<UserRecord>, e: Seq<char>) -> bool {
    exists|i: int| 0 <= i < rows.len() && rows[i].email == e
}

/// Some row has public identifier `id`.
pub open spec fn has_public_id(rows: Seq<UserRecord>, id: u128) -> bool {
    exists|i: int| 0 <= i < rows.len() && rows[i].user_id == id
}

/// The position of a row with email `e` (meaningful where one exists).
pub open spec fn email_index(rows: Seq<UserRecord>, e: Seq<char>) -> int {
    choose|i: int| 0 <= i < rows.len() && rows[i].email == e
}

/// The position of a row with public identifier `id` (meaningful where
/// one exists).
pub open spec fn id_index(rows: Seq<UserRecord>, id: u128) -> int {
    choose|i: int| 0 <= i < rows.len() && rows[i].user_id == id
}

/// The row with email `e`, if any.
pub open spec fn row_with_email(rows: Seq<UserRecord>, e: Seq<char>) -> Option<UserRecord> {
    if has_email(rows, e) {
        Some(rows[email_index(rows, e)])
    } else {
        None
    }
}

/// The row with public identifier `id`, if any.
pub open spec fn row_with_id(rows: Seq<UserRecord>, id: u128) -> Option<UserRecord> {
    if has_public_id(rows, id) {
        Some(rows[id_index(rows, id)])
    } else {
        None
    }
}

/// Some row other than the one with public identifier `id` has email `e`.
pub open spec fn email_taken_by_other(rows: Seq<UserRecord>, e: Seq<char>, id: u128) -> bool {
    exists|i: int| 0 <= i < rows.len() && rows[i].email == e && rows[i].user_id != id
}

/// The table's invariant: emails and public identifiers are unique, and the
/// internal identifier of the row at position `i` is `i + 1`.
pub open spec fn table_wf(rows: Seq<UserRecord>) -> bool {
    &&& rows.len() < i32::MAX
    &&& forall|i: int| 0 <= i < rows.len() ==> #[trigger] rows[i].id == i + 1
    &&& forall|i: int, j: int|
        0 <= i < rows.len() && 0 <= j < rows.len() && i != j ==> #[trigger] rows[i].email
            != #[trigger] rows[j].email
    &&& forall|i: int, j: int|
        0 <= i < rows.len() && 0 <= j < rows.len() && i != j ==> #[trigger] rows[i].user_id
            != #[trigger] rows[j].user_id
}

/// The table is full: no internal identifier is left for another row.
pub open spec fn table_full(rows: Seq<UserRecord>) -> bool {
    rows.len() + 1 >= i32::MAX
}

/// In a well-formed table the row found by email is the one at any
/// position that holds that email.
pub proof fn lemma_email_index(rows: Seq<UserRecord>, k: int)
    requires
        table_wf(rows),
        0 <= k < rows.len(),
    ensures
        has_email(rows, rows[k].email),
        email_index(rows, rows[k].email) == k,
{
    let e = rows[k].email;
    assert(0 <= k < rows.len() && rows[k].email == e);
    let j = email_index(rows, e);
    assert(rows[j].email == rows[k].email);
}

/// In a well-formed table the row found by public identifier is the one at
/// any position that holds that identifier.
pub proof fn lemma_id_index(rows: Seq<UserRecord>, k: int)
    requires
        table_wf(rows),
        0 <= k < rows.len(),
    ensures
        has_public_id(rows, rows[k].user_id),
        id_index(rows, rows[k].user_id) == k,
{
    let id = rows[k].user_id;
    assert(0 <= k < rows.len() && rows[k].user_id == id);
    let j = id_index(rows, id);
    assert(rows[j].user_id == rows[k].user_id);
}

/// The users table: rows with unique emails and unique public identifiers.
pub struct UserStore {
    users: Vec<User>,
}

impl UserStore {
    /// The rows, in order of insertion.
    pub closed spec fn rows(&self) -> Seq<UserRecord> {
        records(self.users@)
    }

    /// The table's invariant holds.
    pub open spec fn wf(&self) -> bool {
        table_wf(self.rows())
    }

    /// An empty table.
    pub fn new() -> (r: UserStore)
        ensures
            r.wf(),
            r.rows() == Seq::<UserRecord>::empty(),
    {
        let r = UserStore { users: Vec::new() };
        assert(r.rows() =~= Seq::<UserRecord>::empty());
        r
    }

    /// The position of the row with email `email`, if any.
    fn position_of_email(&self, email: &String) -> (r: Option<usize>)
        requires
            self.wf(),
        ensures
            match r {
                Some(k) => k < self.rows().len() && has_email(self.rows(), email@) && email_index(
                    self.rows(),
                    email@,
                ) == k,
                None => !has_email(self.rows(), email@),
            },
    {
        let n = self.users.len();
        let mut i: usize = 0;
        while i < n
            invariant
                self.wf(),
                n == self.users@.len(),
                i <= n,
                forall|j: int| 0 <= j < i ==> self.rows()[j].email != email@,
            decreases n - i,
        {
            if self.users[i].email == *email {
                proof {
                    assert(self.rows()[i as int] == self.users@[i as int]@);
                    lemma_email_index(self.rows(), i as int);
                }
                return Some(i);
            }
            i = i + 1;
        }
        None
    }

    /// The position of the row with public identifier `user_id`, if any.
    fn position_of_id(&self, user_id: u128) -> (r: Option<usize>)
        requires
            self.wf(),
        ensures
            match r {
                Some(k) => k < self.rows().len() && has_public_id(self.rows(), user_id)
                    && id_index(self.rows(), user_id) == k,
                None => !has_public_id(self.rows(), user_id),
            },
    {
        let n = self.users.len();
        let mut i: usize = 0;
        while i < n
            invariant
                self.wf(),
                n == self.users@.len(),
                i <= n,
                forall|j: int| 0 <= j < i ==> self.rows()[j].user_id != user_id,
            decreases n - i,
        {
            if self.users[i].user_id == user_id {
                proof {
                    lemma_id_index(self.rows(), i as int);
                }
                return Some(i);
            }
            i = i + 1;
        }
        None
    }

    /// The row with email `email`, if any; absence is no error.
    pub fn find_by_email(&self, email: &String) -> (r: Option<User>)
        requires
            self.wf(),
        ensures
            match r {
                Some(u) => row_with_email(self.rows(), email@) == Some(u@),
                None => row_with_email(self.rows(), email@) is None,
            },
    {
        match self.position_of_email(email) {
            Some(k) => Some(self.users[k].duplicate()),
            None => None,
        }
    }

    /// The row with public identifier `user_id`; `NotFound` where there is
    /// none.
    pub fn find_by_public_id(&self, user_id: u128) -> (r: Result<User, ApiError>)
        requires
            self.wf(),
        ensures
            match r {
                Ok(u) => row_with_id(self.rows(), user_id) == Some(u@),
                Err(e) => e == ApiError::NotFound && row_with_id(self.rows(), user_id) is None,
            },
    {
        match self.position_of_id(user_id) {
            Some(k) => Ok(self.users[k].duplicate()),
            None => Err(ApiError::NotFound),
        }
    }

    /// Every row, in order of insertion.
    pub fn find_all(&self) -> (r: Vec<User>)
        requires
            self.wf(),
        ensures
            records(r@) == self.rows(),
    {
        let n = self.users.len();
        let mut out: Vec<User> = Vec::new();
        let mut i: usize = 0;
        while i < n
            invariant
                n == self.users@.len(),
                i <= n,
                out@.len() == i,
                forall|j: int| 0 <= j < i ==> #[trigger] out@[j]@ == self.users@[j]@,
            decreases n - i,
        {
            out.push(self.users[i].duplicate());
            i = i + 1;
        }
        assert(records(out@) =~= self.rows());
        out
    }

    /// Inserts a row with the fields of `new_user` and the public
    /// identifier `user_id`; the internal identifier is the next serial
    /// number. `ConstraintViolation`, with the table unchanged, where the
    /// email or the public identifier is taken or the table is full.
    pub fn insert(&mut self, new_user: NewUser, user_id: u128) -> (r: Result<User, ApiError>)
        requires
            old(self).wf(),
        ensures
            final(self).wf(),
            match r {
                Ok(u) => {
                    &&& !has_email(old(self).rows(), new_user.email@)
                    &&& !has_public_id(old(self).rows(), user_id)
                    &&& !table_full(old(self).rows())
                    &&& u@ == (UserRecord {
                        id: (old(self).rows().len() + 1) as i32,
                        user_id,
                        first_name: new_user.first_name@,
                        last_name: new_user.last_name@,
                        email: new_user.email@,
                        password: new_user.password@,
                        created_at: new_user.created_at,
                        updated_at: new_user.updated_at,
                    })
                    &&& final(self).rows() == old(self).rows().push(u@)
                },
                Err(e) => {
                    &&& e == ApiError::ConstraintViolation
                    &&& has_email(old(self).rows(), new_user.email@) || has_public_id(
                        old(self).rows(),
                        user_id,
                    ) || table_full(old(self).rows())
                    &&& final(self).rows() == old(self).rows()
                },
            },
    {
        if self.users.len() >= (i32::MAX - 1) as usize {
            return Err(ApiError::ConstraintViolation);
        }
        if self.position_of_email(&new_user.email).is_some() {
            return Err(ApiError::ConstraintViolation);
        }
        if self.position_of_id(user_id).is_some() {
            return Err(ApiError::ConstraintViolation);
        }
        let id = (self.users.len() + 1) as i32;
        let u = User {
            id,
            user_id,
            first_name: new_user.first_name,
            last_name: new_user.last_name,
            email: new_user.email,
            password: new_user.password,
            created_at: new_user.created_at,
            updated_at: new_user.updated_at,
        };
        let ghost before = self.rows();
        self.users.push(u.duplicate());
        proof {
            assert(self.rows() =~= before.push(u@));
            let rows = self.rows();
            assert forall|i: int, j: int|
                0 <= i < rows.len() && 0 <= j < rows.len() && i != j implies rows[i].email
                != rows[j].email && rows[i].user_id != rows[j].user_id by {
                if i == before.len() {
                    assert(before[j].email != u.email@);
                    assert(before[j].user_id != user_id);
                } else if j == before.len() {
                    assert(before[i].email != u.email@);
                    assert(before[i].user_id != user_id);
                }
            }
        }
        Ok(u)
    }

    /// Replaces the email and password hash of the row with public
    /// identifier `user_id` and sets its `updated_at` to `now`; the other
    /// rows stay. `NotFound` where no row has that identifier,
    /// `ConstraintViolation` where another row holds the email; the table is
    /// then unchanged.
    pub fn update_credentials(
        &mut self,
        user_id: u128,
        email: String,
        password: String,
        now: i64,
    ) -> (r: Result<User, ApiError>)
        requires
            old(self).wf(),
        ensures
            final(self).wf(),
            match r {
                Ok(u) => {
                    let k = id_index(old(self).rows(), user_id);
                    &&& has_public_id(old(self).rows(), user_id)
                    &&& !email_taken_by_other(old(self).rows(), email@, user_id)
                    &&& u@ == (UserRecord {
                        email: email@,
                        password: password@,
                        updated_at: now,
                        ..old(self).rows()[k]
                    })
                    &&& final(self).rows() == old(self).rows().update(k, u@)
                },
                Err(e) => {
                    &&& final(self).rows() == old(self).rows()
                    &&& (e == ApiError::NotFound <==> !has_public_id(old(self).rows(), user_id))
                    &&& (e == ApiError::ConstraintViolation <==> has_public_id(
                        old(self).rows(),
                        user_id,
                    ) && email_taken_by_other(old(self).rows(), email@, user_id))
                    &&& (e == ApiError::NotFound || e == ApiError::ConstraintViolation)
                },
            },
    {
        let k = match self.position_of_id(user_id) {
            Some(k) => k,
            None => return Err(ApiError::NotFound),
        };
        let ghost before = self.rows();
        match self.position_of_email(&email) {
            Some(j) => {
                if self.users[j].user_id != user_id {
                    return Err(ApiError::ConstraintViolation);
                }
                proof {
                    assert(before[j as int] == self.users@[j as int]@);
                    assert(before[k as int].user_id == user_id);
                    assert(table_wf(before));
                    assert(before[j as int].user_id == user_id);
                    assert(j < before.len() && k < before.len());
                    assert(j == k);
                }
            },
            None => {},
        }
        assert(!email_taken_by_other(before, email@, user_id)) by {
            if email_taken_by_other(before, email@, user_id) {
                let i = choose|i: int|
                    0 <= i < before.len() && before[i].email == email@ && before[i].user_id
                        != user_id;
                lemma_email_index(before, i);
            }
        }
        let old_row = &self.users[k];
        let u = User {
            id: old_row.id,
            user_id: old_row.user_id,
            first_name: old_row.first_name.clone(),
            last_name: old_row.last_name.clone(),
            email,
            password,
            created_at: old_row.created_at,
            updated_at: now,
        };
        self.users.set(k, u.duplicate());
        proof {
            assert(self.rows() =~= before.update(k as int, u@));
            let rows = self.rows();
            assert forall|i: int, j: int|
                0 <= i < rows.len() && 0 <= j < rows.len() && i != j implies rows[i].email
                != rows[j].email && rows[i].user_id != rows[j].user_id by {
                if i == k {
                    assert(before[j].user_id != user_id);
                } else if j == k {
                    assert(before[i].user_id != user_id);
                }
            }
        }
        Ok(u)
    }
}

} // verus!
