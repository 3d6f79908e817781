use vstd::prelude::*;
use crate::credentials::{bcrypt_hash, bcrypt_verdict, bcrypt_verify};
use crate::errors::ApiError;
use crate::stamps::{fresh_public_id, now_micros};
use crate::store::{
    email_taken_by_other, has_email, has_public_id, id_index, row_with_email, row_with_id,
    records, UserStore,
};

verus! {

/// A user row as a mathematical value.
pub struct UserRecord {
    pub id: i32,
    pub user_id: u128,
    pub first_name: Seq<char>,
    pub last_name: Seq<char>,
    pub email: Seq<char>,
    pub password: Seq<char>,
    pub created_at: i64,
    pub updated_at: i64,
}

/// A row of the users table. `id` is the internal identifier, `user_id` the
/// public one, `password` the hash of the password, and the two timestamps
/// are microseconds since the epoch.
pub struct User {
    pub id: i32,
    pub user_id: u128,
    pub first_name: String,
    pub last_name: String,
    pub email: String,
    pub password: String,
    pub created_at: i64,
    pub updated_at: i64,
}

impl View for User {
    type V = UserRecord;

    open spec fn view(&self) -> UserRecord {
        UserRecord {
            id: self.id,
            user_id: self.user_id,
            first_name: self.first_name@,
            last_name: self.last_name@,
            email: self.email@,
            password: self.password@,
            created_at: self.created_at,
            updated_at: self.updated_at,
        }
    }
}

/// The fields of a row about to be inserted; the table assigns both
/// identifiers.
pub struct NewUser {
    pub first_name: String,
    pub last_name: String,
    pub email: String,
    pub password: String,
    pub created_at: i64,
    pub updated_at: i64,
}

/// A registration request; `password` is in plain text.
pub struct RegisterUser {
    pub first_name: String,
    pub last_name: String,
    pub email: String,
    pub password: String,
}

/// A request to replace a user's email and password; `password` is in
/// plain text.
pub struct UserLogin {
    pub email: String,
    pub password: String,
}

/// The part of a user that is shown to clients: no password hash, no
/// internal identifier.
pub struct UserResult {
    pub user_id: u128,
    pub first_name: String,
    pub last_name: String,
    pub email: String,
}

/// A user as clients see it.
pub struct PublicUser {
    pub user_id: u128,
    pub first_name: Seq<char>,
    pub last_name: Seq<char>,
    pub email: Seq<char>,
}

/// The public part of a row.
pub open spec fn public_of(rec: UserRecord) -> PublicUser {
    PublicUser {
        user_id: rec.user_id,
        first_name: rec.first_name,
        last_name: rec.last_name,
        email: rec.email,
    }
}

impl View for UserResult {
    type V = PublicUser;

    open spec fn view(&self) -> PublicUser {
        PublicUser {
            user_id: self.user_id,
            first_name: self.first_name@,
            last_name: self.last_name@,
            email: self.email@,
        }
    }
}

impl User {
    /// A copy of the row.
    pub fn duplicate(&self) -> (r: User)
        ensures
            r@ == self@,
    {
        User {
            id: self.id,
            user_id: self.user_id,
            first_name: self.first_name.clone(),
            last_name: self.last_name.clone(),
            email: self.email.clone(),
            password: self.password.clone(),
            created_at: self.created_at,
            updated_at: self.updated_at,
        }
    }

    /// The public projection of the row.
    pub fn project(&self) -> (r: UserResult)
        ensures
            r@ == public_of(self@),
    {
        UserResult {
            user_id: self.user_id,
            first_name: self.first_name.clone(),
            last_name: self.last_name.clone(),
            email: self.email.clone(),
        }
    }
}

/// What a credential check answers: `false` where no row has the email,
/// else what bcrypt's verify says of the password and that row's hash.
pub open spec fn login_outcome(rows: Seq<UserRecord>, email: Seq<char>, password: Seq<char>) -> Result<bool, ApiError> {
    match row_with_email(rows, email) {
        None => Ok(false),
        Some(row) => match bcrypt_verdict(password, row.password) {
            Some(b) => Ok(b),
            None => Err(ApiError::HashingError),
        },
    }
}

impl RegisterUser {
    /// Hands the request back where no user has its email yet;
    /// `DuplicateEmail` where one has.
    pub fn validates(self, store: &UserStore) -> (r: Result<RegisterUser, ApiError>)
        requires
            store.wf(),
        ensures
            match r {
                Ok(x) => x == self && !has_email(store.rows(), self.email@),
                Err(e) => e == ApiError::DuplicateEmail && has_email(store.rows(), self.email@),
            },
    {
        match store.find_by_email(&self.email) {
            Some(_) => Err(ApiError::DuplicateEmail),
            None => Ok(self),
        }
    }
}

impl User {
    /// Inserts a new row for the request: the password hashed, a fresh
    /// public identifier, both timestamps set to the current time. The
    /// table refuses a taken email (`ConstraintViolation`); a failed hash
    /// gives `HashingError`. On failure the table is unchanged.
    pub fn create(store: &mut UserStore, register_user: RegisterUser) -> (r: Result<Self, ApiError>)
        requires
            old(store).wf(),
        ensures
            final(store).wf(),
            match r {
                Ok(u) => {
                    &&& !has_email(old(store).rows(), register_user.email@)
                    &&& !has_public_id(old(store).rows(), u.user_id)
                    &&& u.id == old(store).rows().len() + 1
                    &&& u.first_name@ == register_user.first_name@
                    &&& u.last_name@ == register_user.last_name@
                    &&& u.email@ == register_user.email@
                    &&& bcrypt_verdict(register_user.password@, u.password@) == Some(true)
                    &&& u.created_at == u.updated_at
                    &&& final(store).rows() == old(store).rows().push(u@)
                },
                Err(e) => {
                    &&& e == ApiError::HashingError || e == ApiError::ConstraintViolation
                    &&& final(store).rows() == old(store).rows()
                },
            },
            has_email(old(store).rows(), register_user.email@) ==> r is Err,
    {
        let password = Self::hash_password(register_user.password)?;
        let now = now_micros();
        let new_user = NewUser {
            first_name: register_user.first_name,
            last_name: register_user.last_name,
            email: register_user.email,
            password,
            created_at: now,
            updated_at: now,
        };
        store.insert(new_user, fresh_public_id())
    }

    /// Replaces the email and password of the user with public identifier
    /// `id`. `DuplicateEmail` where another user owns the new email,
    /// `HashingError` where hashing fails, `NotFound` where no user has the
    /// identifier; the table is then unchanged. On success the row keeps its
    /// identifiers, names and creation time, takes the new email and the
    /// hash of the new password, and its `updated_at` is refreshed.
    pub fn update_login(store: &mut UserStore, id: u128, user_login: UserLogin) -> (r: Result<Self, ApiError>)
        requires
            old(store).wf(),
        ensures
            final(store).wf(),
            match r {
                Ok(u) => {
                    let k = id_index(old(store).rows(), id);
                    let before = old(store).rows()[k];
                    &&& has_public_id(old(store).rows(), id)
                    &&& !email_taken_by_other(old(store).rows(), user_login.email@, id)
                    &&& u.id == before.id
                    &&& u.user_id == id
                    &&& u.first_name@ == before.first_name
                    &&& u.last_name@ == before.last_name
                    &&& u.created_at == before.created_at
                    &&& u.email@ == user_login.email@
                    &&& bcrypt_verdict(user_login.password@, u.password@) == Some(true)
                    &&& final(store).rows() == old(store).rows().update(k, u@)
                },
                Err(e) => {
                    &&& final(store).rows() == old(store).rows()
                    &&& (e == ApiError::DuplicateEmail <==> email_taken_by_other(
                        old(store).rows(),
                        user_login.email@,
                        id,
                    ))
                    &&& (e == ApiError::DuplicateEmail || e == ApiError::HashingError || (e
                        == ApiError::NotFound && !has_public_id(old(store).rows(), id)))
                },
            },
            !email_taken_by_other(old(store).rows(), user_login.email@, id) && !has_public_id(
                old(store).rows(),
                id,
            ) ==> r is Err,
    {
        let owner = Self::lookup_email(store, &user_login.email)?;
        match owner {
            Some(other) => {
                if other.user_id != id {
                    return Err(ApiError::DuplicateEmail);
                }
            },
            None => {},
        }
        proof {
            let rows = store.rows();
            if email_taken_by_other(rows, user_login.email@, id) {
                let i = choose|i: int|
                    0 <= i < rows.len() && rows[i].email == user_login.email@ && rows[i].user_id
                        != id;
                crate::store::lemma_email_index(rows, i);
            }
        }
        let password = Self::hash_password(user_login.password)?;
        let now = now_micros();
        store.update_credentials(id, user_login.email, password, now)
    }

    /// Every user, in order of insertion.
    pub fn find_all(store: &UserStore) -> (r: Result<Vec<Self>, ApiError>)
        requires
            store.wf(),
        ensures
            r matches Ok(v) && records(v@) == store.rows(),
    {
        Ok(store.find_all())
    }

    /// The user with public identifier `id`; `NotFound` where there is none.
    pub fn find(store: &UserStore, id: u128) -> (r: Result<Self, ApiError>)
        requires
            store.wf(),
        ensures
            match r {
                Ok(u) => row_with_id(store.rows(), id) == Some(u@),
                Err(e) => e == ApiError::NotFound && row_with_id(store.rows(), id) is None,
            },
    {
        store.find_by_public_id(id)
    }

    /// The user with email `email`, if any.
    fn lookup_email(store: &UserStore, email: &String) -> (r: Result<Option<Self>, ApiError>)
        requires
            store.wf(),
        ensures
            match r {
                Ok(Some(u)) => row_with_email(store.rows(), email@) == Some(u@),
                Ok(None) => row_with_email(store.rows(), email@) is None,
                Err(_) => false,
            },
    {
        Ok(store.find_by_email(email))
    }

    /// The bcrypt hash of `password` at the default cost; `HashingError`
    /// where hashing fails.
    pub fn hash_password(password: String) -> (r: Result<String, ApiError>)
        ensures
            match r {
                Ok(h) => bcrypt_verdict(password@, h@) == Some(true),
                Err(e) => e == ApiError::HashingError,
            },
    {
        match bcrypt_hash(password.as_str()) {
            Ok(h) => Ok(h),
            Err(_) => Err(ApiError::HashingError),
        }
    }

    /// Whether `password` matches the stored hash of the user with email
    /// `email`: `false` for an unknown email, `HashingError` where the
    /// stored hash cannot be read.
    pub fn login(store: &UserStore, email: String, password: String) -> (r: Result<bool, ApiError>)
        requires
            store.wf(),
        ensures
            r == login_outcome(store.rows(), email@, password@),
    {
        match Self::lookup_email(store, &email)? {
            Some(user) => match bcrypt_verify(password.as_str(), user.password.as_str()) {
                Ok(b) => Ok(b),
                Err(_) => Err(ApiError::HashingError),
            },
            None => Ok(false),
        }
    }
}

} // verus!
