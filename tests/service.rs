use book_service::accounts::{
    accept_if_matched, check_login, fresh_id, open_session_at, prepare_user, AccountError, AccountStore, LoginPayload,
    NewUser, RegisterPayload, User,
};
use book_service::credential::HashingError;
use book_service::books::{deletion, found, Book, BookStore, NewBook, RepoError, UpdateBook};
use book_service::auth::authenticate_at;
use book_service::service::{repo_reply, ApiError, Config, Service};
use book_service::token::{issue, validate_at, Claims, SESSION_TTL_SECS};

const NOW: u64 = 1_700_000_000;

fn config() -> Config {
    Config { jwt_secret: b"service secret".to_vec(), database_url: String::new() }
}

fn register_payload(name: &str, email: &str, password: &str) -> RegisterPayload {
    RegisterPayload {
        username: name.to_string(),
        email: email.to_string(),
        password: password.to_string(),
    }
}

fn new_book(title: &str, author: &str) -> NewBook {
    NewBook { title: title.to_string(), author: author.to_string() }
}

fn bearer(token: &str) -> String {
    format!("Bearer {}", token)
}

fn registered(service: &mut Service) -> String {
    let reply = service.register(register_payload("alice", "a@x.com", "pw1"), NOW);
    assert_eq!(reply.status, 201);
    reply.body.unwrap().token
}

#[test]
fn register_list_create_then_get_without_header() {
    let mut service = Service::new(&config());
    let reply = service.register(register_payload("alice", "a@x.com", "pw1"), NOW);
    assert_eq!(reply.status, 201);
    let session = reply.body.unwrap();
    assert_eq!(session.user.username, "alice");
    assert_eq!(session.user.email, "a@x.com");
    assert_ne!(session.user.password, "pw1");
    assert_eq!(session.user.created_at, NOW);
    let t1 = session.token;
    let auth = bearer(&t1);

    let listed = service.get_all_books(Some(&auth), NOW);
    assert_eq!(listed.status, 200);
    assert!(listed.body.unwrap().is_empty());

    let created = service.add_book(Some(&auth), 101, new_book("Dune", "Herbert"), NOW);
    assert_eq!(created.status, 201);
    let book = created.body.unwrap();
    assert_eq!(book.title, "Dune");
    assert_eq!(book.author, "Herbert");
    assert_eq!(book.id, 101);
    assert_eq!(service.get_all_books(Some(&auth), NOW).body.unwrap().len(), 1);

    let got = service.get_book_by_id(None, book.id, NOW);
    assert_eq!(got.status, 401);
    assert_eq!(got.body.unwrap_err(), ApiError::Unauthenticated);

    let got = service.get_book_by_id(Some(&auth), book.id, NOW);
    assert_eq!(got.status, 200);
    assert_eq!(got.body.unwrap().title, "Dune");
}

#[test]
fn login_wrong_password_is_401_unknown_email_is_404() {
    let mut service = Service::new(&config());
    registered(&mut service);
    let wrong = LoginPayload { email: "a@x.com".to_string(), password: "nope".to_string() };
    let reply = service.login(&wrong, NOW);
    assert_eq!(reply.status, 401);
    assert_eq!(reply.body.unwrap_err(), ApiError::InvalidCredentials);
    let unknown = LoginPayload { email: "b@x.com".to_string(), password: "pw1".to_string() };
    let reply = service.login(&unknown, NOW);
    assert_eq!(reply.status, 404);
    assert_eq!(reply.body.unwrap_err(), ApiError::NotFound);
    let right = LoginPayload { email: "a@x.com".to_string(), password: "pw1".to_string() };
    let reply = service.login(&right, NOW);
    assert_eq!(reply.status, 200);
    let session = reply.body.unwrap();
    assert_eq!(session.user.username, "alice");
    let header = bearer(&session.token);
    assert!(authenticate_at(Some(&header), b"service secret", NOW).is_ok());
}

#[test]
fn duplicate_email_registration_is_500() {
    let mut service = Service::new(&config());
    registered(&mut service);
    let reply = service.register(register_payload("alice2", "a@x.com", "other"), NOW);
    assert_eq!(reply.status, 500);
    assert_eq!(reply.body.unwrap_err(), ApiError::Internal);
    let old = LoginPayload { email: "a@x.com".to_string(), password: "pw1".to_string() };
    assert_eq!(service.login(&old, NOW).body.unwrap().user.username, "alice");
}

#[test]
fn protected_routes_refuse_bad_tokens_without_touching_books() {
    let mut service = Service::new(&config());
    let token = registered(&mut service);
    let good = bearer(&token);
    let book = service.add_book(Some(&good), 102, new_book("Dune", "Herbert"), NOW).body.unwrap();
    let expired_now = NOW + SESSION_TTL_SECS;
    let cases: Vec<(Option<String>, u64)> = vec![
        (None, NOW),
        (Some(token.clone()), NOW),
        (Some("Bearer not.a.token".to_string()), NOW),
        (Some("Bearer garbage".to_string()), NOW),
        (Some(good.clone()), expired_now),
    ];
    for (header, now) in cases {
        let h = header.as_deref();
        assert_eq!(service.get_all_books(h, now).status, 401);
        assert_eq!(service.get_book_by_id(h, book.id, now).status, 401);
        assert_eq!(service.add_book(h, 103, new_book("X", "Y"), now).status, 401);
        let patch = UpdateBook { title: Some("X".to_string()), author: None };
        assert_eq!(service.update_book_by_id(h, book.id, patch, now).status, 401);
        assert_eq!(service.delete_book_by_id(h, book.id, now).status, 401);
    }
    let all = service.get_all_books(Some(&good), NOW).body.unwrap();
    assert_eq!(all.len(), 1);
    assert_eq!(all[0].title, "Dune");
    assert_eq!(all[0].author, "Herbert");
}

#[test]
fn title_only_update_keeps_author() {
    let mut service = Service::new(&config());
    let auth = bearer(&registered(&mut service));
    let book = service.add_book(Some(&auth), 104, new_book("Dune", "Herbert"), NOW).body.unwrap();
    let patch = UpdateBook { title: Some("X".to_string()), author: None };
    let reply = service.update_book_by_id(Some(&auth), book.id, patch, NOW);
    assert_eq!(reply.status, 200);
    let updated = reply.body.unwrap();
    assert_eq!(updated.title, "X");
    assert_eq!(updated.author, "Herbert");
    assert_eq!(updated.id, book.id);
    let got = service.get_book_by_id(Some(&auth), book.id, NOW).body.unwrap();
    assert_eq!(got.title, "X");
    assert_eq!(got.author, "Herbert");
}

#[test]
fn update_of_missing_id_is_404_and_writes_nothing() {
    let mut service = Service::new(&config());
    let auth = bearer(&registered(&mut service));
    let book = service.add_book(Some(&auth), 105, new_book("Dune", "Herbert"), NOW).body.unwrap();
    let missing = book.id + 1000;
    let patch = UpdateBook { title: Some("X".to_string()), author: Some("Y".to_string()) };
    let reply = service.update_book_by_id(Some(&auth), missing, patch, NOW);
    assert_eq!(reply.status, 404);
    assert_eq!(reply.body.unwrap_err(), ApiError::NotFound);
    let all = service.get_all_books(Some(&auth), NOW).body.unwrap();
    assert_eq!(all.len(), 1);
    assert_eq!(all[0].title, "Dune");
}

#[test]
fn delete_then_get_is_404() {
    let mut service = Service::new(&config());
    let auth = bearer(&registered(&mut service));
    let book = service.add_book(Some(&auth), 106, new_book("Dune", "Herbert"), NOW).body.unwrap();
    let missing = book.id + 1000;
    let reply = service.delete_book_by_id(Some(&auth), missing, NOW);
    assert_eq!(reply.status, 404);
    let reply = service.delete_book_by_id(Some(&auth), book.id, NOW);
    assert_eq!(reply.status, 204);
    assert!(reply.body.is_ok());
    assert_eq!(service.get_book_by_id(Some(&auth), book.id, NOW).status, 404);
    assert_eq!(service.delete_book_by_id(Some(&auth), book.id, NOW).status, 404);
    assert!(service.get_all_books(Some(&auth), NOW).body.unwrap().is_empty());
}

#[test]
fn book_store_keeps_ids_unique_and_order() {
    let mut store = BookStore::new();
    let a = store.create(1, new_book("A", "a")).unwrap();
    assert_eq!(a.id, 1);
    assert_eq!(store.create(1, new_book("B", "b")).unwrap_err(), RepoError::Store);
    store.create(2, new_book("B", "b")).unwrap();
    let all: Vec<Book> = store.list_all();
    assert_eq!(all.iter().map(|b| b.id).collect::<Vec<_>>(), vec![1, 2]);
    assert_eq!(store.get(3).unwrap_err(), RepoError::NotFound);
    assert_eq!(store.delete(1), Ok(()));
    assert_eq!(store.get(1).unwrap_err(), RepoError::NotFound);
    assert_eq!(store.list_all().len(), 1);
}

#[test]
fn patch_merge_rule() {
    let b = Book { id: 5, title: "Dune".to_string(), author: "Herbert".to_string() };
    let none = UpdateBook { title: None, author: None }.apply_to(b.clone());
    assert_eq!((none.id, none.title.as_str(), none.author.as_str()), (5, "Dune", "Herbert"));
    let both = UpdateBook { title: Some("T".to_string()), author: Some("A".to_string()) }.apply_to(b);
    assert_eq!((both.id, both.title.as_str(), both.author.as_str()), (5, "T", "A"));
}

#[test]
fn store_outcomes_map_to_statuses() {
    assert_eq!(found::<u8>(Ok(Some(3))), Ok(3));
    assert_eq!(found::<u8>(Ok(None)), Err(RepoError::NotFound));
    assert_eq!(found::<u8>(Err(RepoError::PoolExhausted)), Err(RepoError::PoolExhausted));
    assert_eq!(deletion(Ok(0)), Err(RepoError::NotFound));
    assert_eq!(deletion(Ok(1)), Ok(()));
    assert_eq!(deletion(Err(RepoError::Store)), Err(RepoError::Store));
    assert_eq!(RepoError::NotFound.status(), 404);
    assert_eq!(RepoError::Store.status(), 500);
    assert_eq!(RepoError::PoolExhausted.status(), 500);
    assert_eq!(repo_reply::<u8>(Err(RepoError::NotFound), 200).status, 404);
    assert_eq!(repo_reply::<u8>(Err(RepoError::Store), 200).status, 500);
    assert_eq!(repo_reply::<u8>(Ok(1), 201).status, 201);
    assert_eq!(ApiError::Unauthenticated.status(), 401);
    assert_eq!(ApiError::InvalidCredentials.status(), 401);
    assert_eq!(ApiError::NotFound.status(), 404);
    assert_eq!(ApiError::Internal.status(), 500);
}

#[test]
fn account_errors_map_to_statuses() {
    assert_eq!(AccountError::UnknownEmail.status(), 404);
    assert_eq!(AccountError::InvalidCredentials.status(), 401);
    assert_eq!(AccountError::DuplicateEmail.status(), 500);
    assert_eq!(AccountError::HashingFailed.status(), 500);
}

#[test]
fn account_store_refuses_taken_email_and_id() {
    let mut store = AccountStore::new();
    let nu = |email: &str| NewUser {
        username: "u".to_string(),
        email: email.to_string(),
        password: "h".to_string(),
    };
    let u = store.insert(1, nu("a@x.com"), 10).unwrap();
    assert_eq!((u.id, u.created_at), (1, 10));
    assert_eq!(store.insert(2, nu("a@x.com"), 10).unwrap_err(), AccountError::DuplicateEmail);
    assert_eq!(store.insert(1, nu("b@x.com"), 10).unwrap_err(), AccountError::Store);
    assert_eq!(store.find_by_email("a@x.com").unwrap().id, 1);
    assert!(store.find_by_email("b@x.com").is_none());
}

#[test]
fn login_decision_on_found_account() {
    let new = prepare_user(register_payload("bob", "b@x.com", "secret")).unwrap();
    assert_ne!(new.password, "secret");
    let user = User {
        id: 1,
        username: new.username.clone(),
        email: new.email.clone(),
        password: new.password.clone(),
        created_at: 0,
    };
    assert_eq!(check_login(None, "secret").unwrap_err(), AccountError::UnknownEmail);
    assert_eq!(check_login(Some(user.clone()), "wrong").unwrap_err(), AccountError::InvalidCredentials);
    assert_eq!(check_login(Some(user.clone()), "secret").unwrap().username, "bob");
    let mut broken = user.clone();
    broken.password = "not a hash".to_string();
    assert_eq!(check_login(Some(broken), "secret").unwrap_err(), AccountError::InvalidCredentials);
}

#[test]
fn session_subject_is_the_hyphenated_uuid() {
    let user = User {
        id: 0x0123_4567_89ab_cdef_0011_2233_4455_6677,
        username: "carol".to_string(),
        email: "c@x.com".to_string(),
        password: String::new(),
        created_at: 0,
    };
    let secret = b"k";
    let token = open_session_at(&user, secret, 100).unwrap();
    let c = validate_at(&token, secret, 100).unwrap();
    assert_eq!(c.sub, "01234567-89ab-cdef-0011-223344556677");
    assert_eq!(c.exp, 100 + SESSION_TTL_SECS);
    assert_eq!(c.username.as_deref(), Some("carol"));
    let again = issue(&Claims { sub: c.sub.clone(), exp: c.exp, username: c.username.clone() }, secret).unwrap();
    assert!(validate_at(&again, secret, 100).is_ok());
}

#[test]
fn only_a_match_lets_the_account_in() {
    let user = User {
        id: 9,
        username: "dan".to_string(),
        email: "d@x.com".to_string(),
        password: String::new(),
        created_at: 0,
    };
    assert_eq!(accept_if_matched(user.clone(), Ok(true)).unwrap().id, 9);
    assert_eq!(accept_if_matched(user.clone(), Ok(false)).unwrap_err(), AccountError::InvalidCredentials);
    assert_eq!(
        accept_if_matched(user, Err(HashingError::Malformed)).unwrap_err(),
        AccountError::InvalidCredentials
    );
}

#[test]
fn add_book_on_a_taken_id_is_500_and_writes_nothing() {
    let mut service = Service::new(&config());
    let auth = bearer(&registered(&mut service));
    let first = service.add_book(Some(&auth), 7, new_book("Dune", "Herbert"), NOW);
    assert_eq!(first.status, 201);
    assert_eq!(first.body.unwrap().id, 7);
    let again = service.add_book(Some(&auth), 7, new_book("Emma", "Austen"), NOW);
    assert_eq!(again.status, 500);
    assert_eq!(again.body.unwrap_err(), ApiError::Internal);
    let all = service.get_all_books(Some(&auth), NOW).body.unwrap();
    assert_eq!(all.len(), 1);
    assert_eq!(all[0].title, "Dune");
}

#[test]
fn updating_twice_with_one_patch_changes_nothing_more() {
    let mut service = Service::new(&config());
    let auth = bearer(&registered(&mut service));
    service.add_book(Some(&auth), 1, new_book("Dune", "Herbert"), NOW);
    service.add_book(Some(&auth), 2, new_book("Emma", "Austen"), NOW);
    let patch = || UpdateBook { title: Some("X".to_string()), author: None };
    let b1 = service.update_book_by_id(Some(&auth), 2, patch(), NOW).body.unwrap();
    let b2 = service.update_book_by_id(Some(&auth), 2, patch(), NOW).body.unwrap();
    assert_eq!((b1.id, b1.title.as_str(), b1.author.as_str()), (2, "X", "Austen"));
    assert_eq!((b2.id, b2.title.as_str(), b2.author.as_str()), (2, "X", "Austen"));
    let all = service.get_all_books(Some(&auth), NOW).body.unwrap();
    assert_eq!(all[0].title, "Dune");
    assert_eq!(all[1].title, "X");
}

#[test]
fn empty_patch_is_recognised() {
    assert!(UpdateBook { title: None, author: None }.is_empty());
    assert!(!UpdateBook { title: Some("X".to_string()), author: None }.is_empty());
    assert!(!UpdateBook { title: None, author: Some("Y".to_string()) }.is_empty());
}

#[test]
fn fresh_ids_are_version_four_uuids() {
    let a = fresh_id().unwrap();
    let b = fresh_id().unwrap();
    assert_ne!(a, b);
    assert_eq!((a >> 76) & 0xf, 4);
    assert_eq!((a >> 62) & 0x3, 2);
}

#[test]
fn registered_secret_logs_in_and_hashes_differ() {
    let mut service = Service::new(&config());
    let r1 = service.register(register_payload("a", "a@x.com", "same"), NOW).body.unwrap();
    let r2 = service.register(register_payload("b", "b@x.com", "same"), NOW).body.unwrap();
    assert_ne!(r1.user.password, r2.user.password);
    assert_ne!(r1.user.password, "same");
    assert!(r1.user.password.starts_with("$argon2id$v=19$"));
    assert_ne!(r1.user.id, r2.user.id);
    let login = LoginPayload { email: "b@x.com".to_string(), password: "same".to_string() };
    let reply = service.login(&login, NOW);
    assert_eq!(reply.status, 200);
    assert_eq!(reply.body.unwrap().user.id, r2.user.id);
}
