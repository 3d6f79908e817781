use vstd::prelude::*;
use crate::credentials::bcrypt_verdict;
use crate::errors::ApiError;
use crate::store::{
    email_taken_by_other, has_email, has_public_id, id_index, row_with_email, row_with_id,
    table_wf, UserStore,
};
use crate::user::{login_outcome, public_of, PublicUser, RegisterUser, User, UserLogin, UserRecord, UserResult};

verus! {

/// The public parts of the rows, in order.
pub open spec fn public_list(rows: Seq<UserRecord>) -> Seq<PublicUser> {
    rows.map_values(|r: UserRecord| public_of(r))
}

/// The public users that a list holds, in order.
pub open spec fn shown(list: Seq<UserResult>) -> Seq<PublicUser> {
    list.map_values(|r: UserResult| r@)
}

/// Registers a user: `DuplicateEmail` where the email is taken, else the
/// new row is inserted and its public part returned.
pub fn create_user(store: &mut UserStore, register_user: RegisterUser) -> (r: Result<UserResult, ApiError>)
    requires
        old(store).wf(),
    ensures
        final(store).wf(),
        match r {
            Ok(res) => {
                let row = final(store).rows().last();
                &&& final(store).rows() == old(store).rows().push(row)
                &&& !has_public_id(old(store).rows(), row.user_id)
                &&& row.first_name == register_user.first_name@
                &&& row.last_name == register_user.last_name@
                &&& row.email == register_user.email@
                &&& bcrypt_verdict(register_user.password@, row.password) == Some(true)
                &&& res@ == public_of(row)
            },
            Err(e) => {
                &&& final(store).rows() == old(store).rows()
                &&& (e == ApiError::DuplicateEmail <==> has_email(
                    old(store).rows(),
                    register_user.email@,
                ))
                &&& (e == ApiError::DuplicateEmail || e == ApiError::HashingError || e
                    == ApiError::ConstraintViolation)
            },
        },
{
    let validated = register_user.validates(store)?;
    let created = User::create(store, validated)?;
    Ok(created.project())
}

/// Replaces a user's email and password and returns its public part; the
/// errors are those of `User::update_login`.
pub fn update_login(store: &mut UserStore, id: u128, user_login: UserLogin) -> (r: Result<UserResult, ApiError>)
    requires
        old(store).wf(),
    ensures
        final(store).wf(),
        match r {
            Ok(res) => {
                let k = id_index(old(store).rows(), id);
                let row = final(store).rows()[k];
                &&& has_public_id(old(store).rows(), id)
                &&& final(store).rows() == old(store).rows().update(k, row)
                &&& row.user_id == id
                &&& row.id == old(store).rows()[k].id
                &&& row.first_name == old(store).rows()[k].first_name
                &&& row.last_name == old(store).rows()[k].last_name
                &&& row.created_at == old(store).rows()[k].created_at
                &&& row.email == user_login.email@
                &&& bcrypt_verdict(user_login.password@, row.password) == Some(true)
                &&& res@ == public_of(row)
            },
            Err(e) => {
                &&& final(store).rows() == old(store).rows()
                &&& (e == ApiError::DuplicateEmail <==> email_taken_by_other(
                    old(store).rows(),
                    user_login.email@,
                    id,
                ))
                &&& (e == ApiError::DuplicateEmail || e == ApiError::HashingError || (e
                    == ApiError::NotFound && !has_public_id(old(store).rows(), id)))
            },
        },
{
    let ghost k = id_index(store.rows(), id);
    let updated = User::update_login(store, id, user_login)?;
    proof {
        assert(final(store).rows()[k] == updated@);
    }
    Ok(updated.project())
}

/// The public parts of all users, in order of insertion.
pub fn get_users(store: &UserStore) -> (r: Result<Vec<UserResult>, ApiError>)
    requires
        store.wf(),
    ensures
        r matches Ok(v) && shown(v@) == public_list(store.rows()),
{
    let users = User::find_all(store)?;
    let n = users.len();
    let mut out: Vec<UserResult> = Vec::new();
    let mut i: usize = 0;
    while i < n
        invariant
            n == users@.len(),
            crate::store::records(users@) == store.rows(),
            i <= n,
            out@.len() == i,
            forall|j: int| 0 <= j < i ==> #[trigger] out@[j]@ == public_of(users@[j]@),
        decreases n - i,
    {
        out.push(users[i].project());
        i = i + 1;
    }
    assert(shown(out@) =~= public_list(store.rows()));
    Ok(out)
}

/// The public part of the user with public identifier `id`; `NotFound`
/// where there is none.
pub fn get_user(store: &UserStore, id: u128) -> (r: Result<UserResult, ApiError>)
    requires
        store.wf(),
    ensures
        match r {
            Ok(res) => row_with_id(store.rows(), id) matches Some(row) && res@ == public_of(row),
            Err(e) => e == ApiError::NotFound && !has_public_id(store.rows(), id),
        },
{
    let user = User::find(store, id)?;
    Ok(user.project())
}

/// The token of a login request: the authorization header's value where
/// there is one, `MissingToken` where there is none.
pub fn login(authorization: Option<String>) -> (r: Result<String, ApiError>)
    ensures
        match authorization {
            Some(t) => r == Ok::<String, ApiError>(t),
            None => r == Err::<String, ApiError>(ApiError::MissingToken),
        },
{
    match authorization {
        Some(token) => Ok(token),
        None => Err(ApiError::MissingToken),
    }
}

/// No two users of a well-formed table share a public identifier, and the
/// identifier of a user added by a registration was held by no earlier
/// user.
pub proof fn public_ids_never_reused(before: Seq<UserRecord>, added: UserRecord)
    requires
        table_wf(before.push(added)),
    ensures
        forall|i: int, j: int|
            0 <= i < before.len() + 1 && 0 <= j < before.len() + 1 && i != j
                ==> #[trigger] before.push(added)[i].user_id != #[trigger] before.push(
                added,
            )[j].user_id,
        !has_public_id(before, added.user_id),
{
    let after = before.push(added);
    if has_public_id(before, added.user_id) {
        let i = choose|i: int| 0 <= i < before.len() && before[i].user_id == added.user_id;
        assert(after[i].user_id != after[before.len() as int].user_id);
    }
}

/// After a registration added a user, its email is taken: a second
/// registration with the same email is refused with `DuplicateEmail`.
pub proof fn second_registration_refused(before: Seq<UserRecord>, added: UserRecord)
    ensures
        has_email(before.push(added), added.email),
{
    assert(before.push(added)[before.len() as int].email == added.email);
}

/// A credential check on an email that no user has answers `false`, never
/// an error.
pub proof fn unknown_email_is_rejected(rows: Seq<UserRecord>, email: Seq<char>, password: Seq<char>)
    requires
        !has_email(rows, email),
    ensures
        login_outcome(rows, email, password) == Ok::<bool, ApiError>(false),
{
}

/// After a credential update stored `updated` at position `k`, the new email
/// and the new password pass the credential check.
pub proof fn new_credentials_authenticate(
    before: Seq<UserRecord>,
    k: int,
    updated: UserRecord,
    password: Seq<char>,
)
    requires
        0 <= k < before.len(),
        table_wf(before.update(k, updated)),
        bcrypt_verdict(password, updated.password) == Some(true),
    ensures
        login_outcome(before.update(k, updated), updated.email, password) == Ok::<bool, ApiError>(true),
{
    let after = before.update(k, updated);
    crate::store::lemma_email_index(after, k);
    assert(row_with_email(after, updated.email) == Some(updated));
}

/// Looking up the public identifier of a user that a registration added
/// gives back that user, with the names and email it was registered with.
pub proof fn registered_user_found(before: Seq<UserRecord>, added: UserRecord)
    requires
        table_wf(before.push(added)),
    ensures
        row_with_id(before.push(added), added.user_id) == Some(added),
{
    let after = before.push(added);
    crate::store::lemma_id_index(after, before.len() as int);
}

} // verus!
