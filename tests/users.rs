use user_service::errors::ApiError;
use user_service::service::{create_user, get_user, get_users, login, update_login};
use user_service::store::UserStore;
use user_service::user::{NewUser, RegisterUser, User, UserLogin};

const PASSWORD_HASH: &str = "$2a$04$UuTkLRZZ6QofpDOlMz32MuuxEHA43WOemOYHPz6.SjsVsyO1tDU96";

fn registration(first: &str, last: &str, email: &str, password: &str) -> RegisterUser {
    RegisterUser {
        first_name: first.to_string(),
        last_name: last.to_string(),
        email: email.to_string(),
        password: password.to_string(),
    }
}

fn row(first: &str, email: &str, hash: &str) -> NewUser {
    NewUser {
        first_name: first.to_string(),
        last_name: "Doe".to_string(),
        email: email.to_string(),
        password: hash.to_string(),
        created_at: 1_000,
        updated_at: 1_000,
    }
}

#[test]
fn ada_registers_once() {
    let mut store = UserStore::new();
    let created = create_user(&mut store, registration("Ada", "Lovelace", "ada@x.com", "pw123"))
        .unwrap();
    assert_eq!(created.first_name, "Ada");
    assert_eq!(created.last_name, "Lovelace");
    assert_eq!(created.email, "ada@x.com");
    let again = create_user(&mut store, registration("Ada", "Byron", "ada@x.com", "other"));
    let err = again.err().unwrap();
    assert_eq!(err, ApiError::DuplicateEmail);
    assert_eq!(err.status(), 400);
    assert_eq!(err.message(), "A user with that email already exists");
    assert_eq!(get_users(&store).unwrap().len(), 1);
}

#[test]
fn registered_user_round_trips() {
    let mut store = UserStore::new();
    let created = create_user(&mut store, registration("Grace", "Hopper", "grace@x.com", "cobol"))
        .unwrap();
    let found = User::find(&store, created.user_id).unwrap();
    assert_eq!(found.first_name, "Grace");
    assert_eq!(found.last_name, "Hopper");
    assert_eq!(found.email, "grace@x.com");
    assert_eq!(found.id, 1);
    assert_ne!(found.password, "cobol");
    assert_eq!(found.password.len(), 60);
    assert_eq!(found.created_at, found.updated_at);
    let shown = get_user(&store, created.user_id).unwrap();
    assert_eq!(shown.user_id, created.user_id);
    assert_eq!(shown.email, "grace@x.com");
}

#[test]
fn validates_refuses_taken_email() {
    let mut store = UserStore::new();
    store.insert(row("Jo", "jo@x.com", PASSWORD_HASH), 7).unwrap();
    let taken = registration("Jo", "Doe", "jo@x.com", "pw").validates(&store);
    assert_eq!(taken.err(), Some(ApiError::DuplicateEmail));
    let free = registration("Al", "Doe", "al@x.com", "pw").validates(&store).ok().unwrap();
    assert_eq!(free.email, "al@x.com");
}

#[test]
fn insert_assigns_serial_ids_and_keeps_keys_unique() {
    let mut store = UserStore::new();
    let a = store.insert(row("A", "a@x.com", PASSWORD_HASH), 10).unwrap();
    let b = store.insert(row("B", "b@x.com", PASSWORD_HASH), 11).unwrap();
    assert_eq!((a.id, b.id), (1, 2));
    assert_eq!(a.user_id, 10);
    assert_eq!(
        store.insert(row("C", "a@x.com", PASSWORD_HASH), 12).err(),
        Some(ApiError::ConstraintViolation)
    );
    assert_eq!(
        store.insert(row("C", "c@x.com", PASSWORD_HASH), 11).err(),
        Some(ApiError::ConstraintViolation)
    );
    let all = store.find_all();
    assert_eq!(all.len(), 2);
    assert_eq!(all[1].email, "b@x.com");
    assert!(store.find_by_email(&"c@x.com".to_string()).is_none());
    assert_eq!(store.find_by_email(&"b@x.com".to_string()).unwrap().user_id, 11);
}

#[test]
fn login_checks_the_stored_hash() {
    let mut store = UserStore::new();
    store.insert(row("A", "a@x.com", PASSWORD_HASH), 1).unwrap();
    let check = |e: &str, p: &str| User::login(&store, e.to_string(), p.to_string());
    assert_eq!(check("a@x.com", "password"), Ok(true));
    assert_eq!(check("a@x.com", "Password"), Ok(false));
    assert_eq!(check("nobody@x.com", "password"), Ok(false));
}

#[test]
fn login_with_malformed_stored_hash_is_a_hashing_error() {
    let mut store = UserStore::new();
    store.insert(row("A", "a@x.com", "not a hash"), 1).unwrap();
    let r = User::login(&store, "a@x.com".to_string(), "password".to_string());
    assert_eq!(r, Err(ApiError::HashingError));
    assert_eq!(ApiError::HashingError.status(), 500);
}

#[test]
fn update_login_new_password_authenticates() {
    let mut store = UserStore::new();
    store.insert(row("A", "a@x.com", PASSWORD_HASH), 5).unwrap();
    let login_req = UserLogin { email: "new@x.com".to_string(), password: "fresh".to_string() };
    let shown = update_login(&mut store, 5, login_req).unwrap();
    assert_eq!(shown.email, "new@x.com");
    assert_eq!(shown.first_name, "A");
    let stored = User::find(&store, 5).unwrap();
    assert_ne!(stored.password, PASSWORD_HASH);
    assert_eq!(stored.created_at, 1_000);
    assert_eq!(stored.id, 1);
    assert_eq!(User::login(&store, "new@x.com".to_string(), "fresh".to_string()), Ok(true));
}

#[test]
fn update_login_old_password_no_longer_authenticates() {
    let mut store = UserStore::new();
    store.insert(row("A", "a@x.com", PASSWORD_HASH), 5).unwrap();
    let login_req = UserLogin { email: "a@x.com".to_string(), password: "fresh".to_string() };
    User::update_login(&mut store, 5, login_req).ok().unwrap();
    assert_eq!(User::login(&store, "a@x.com".to_string(), "password".to_string()), Ok(false));
}

#[test]
fn update_login_refuses_email_of_another_user() {
    let mut store = UserStore::new();
    store.insert(row("A", "a@x.com", PASSWORD_HASH), 5).unwrap();
    store.insert(row("B", "b@x.com", PASSWORD_HASH), 6).unwrap();
    let login_req = UserLogin { email: "b@x.com".to_string(), password: "x".to_string() };
    let r = update_login(&mut store, 5, login_req);
    assert_eq!(r.err(), Some(ApiError::DuplicateEmail));
    assert_eq!(User::find(&store, 5).unwrap().email, "a@x.com");
}

#[test]
fn update_credentials_on_unknown_id_is_not_found() {
    let mut store = UserStore::new();
    store.insert(row("A", "a@x.com", PASSWORD_HASH), 5).unwrap();
    let r = store.update_credentials(9, "z@x.com".to_string(), PASSWORD_HASH.to_string(), 2_000);
    assert_eq!(r.err(), Some(ApiError::NotFound));
    let u = store.update_credentials(5, "z@x.com".to_string(), "h".to_string(), 2_000).unwrap();
    assert_eq!((u.email.as_str(), u.password.as_str(), u.updated_at, u.created_at), ("z@x.com", "h", 2_000, 1_000));
}

#[test]
fn get_user_unknown_is_not_found() {
    let store = UserStore::new();
    let err = get_user(&store, 42).err().unwrap();
    assert_eq!(err, ApiError::NotFound);
    assert_eq!(err.status(), 404);
    assert_eq!(User::find(&store, 42).err(), Some(ApiError::NotFound));
}

#[test]
fn list_users_on_empty_store_is_empty() {
    let store = UserStore::new();
    assert!(get_users(&store).unwrap().is_empty());
    assert!(User::find_all(&store).ok().unwrap().is_empty());
}

#[test]
fn get_users_lists_public_parts_in_order() {
    let mut store = UserStore::new();
    store.insert(row("A", "a@x.com", PASSWORD_HASH), 3).unwrap();
    store.insert(row("B", "b@x.com", PASSWORD_HASH), 4).unwrap();
    let list = get_users(&store).unwrap();
    assert_eq!(list.len(), 2);
    assert_eq!((list[0].user_id, list[0].first_name.as_str()), (3, "A"));
    assert_eq!((list[1].user_id, list[1].email.as_str()), (4, "b@x.com"));
}

#[test]
fn hash_password_output_verifies() {
    let h = User::hash_password("hunter2".to_string()).unwrap();
    assert_ne!(h, "hunter2");
    assert!(h.starts_with("$2b$12$"));
    let mut store = UserStore::new();
    store.insert(row("A", "a@x.com", &h), 1).unwrap();
    assert_eq!(User::login(&store, "a@x.com".to_string(), "hunter2".to_string()), Ok(true));
}

#[test]
fn login_token_required() {
    assert_eq!(login(Some("abc".to_string())), Ok("abc".to_string()));
    let err = login(None).err().unwrap();
    assert_eq!(err, ApiError::MissingToken);
    assert_eq!(err.status(), 400);
    assert_eq!(err.message(), "Missing required token");
}
