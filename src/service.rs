//! The service's handlers: registration and login, and the book routes behind
//! the bearer-token check, each giving an HTTP status and a body.
use vstd::prelude::*;
use vstd::utf8::encode_utf8;
use crate::accounts::{
    check_login, fresh_id, has_email, open_session_at, unique_accounts, prepare_user, session_claims, uuid_text,
    AccountStore, LoginPayload, RegisterPayload, User, UserView,
};
use crate::books::{
    deleted, has_id, patched, unique_ids, Book, BookStore, BookView, NewBook, RepoError, UpdateBook,
};
use crate::credential::{is_hash_of, password_matches};
use crate::auth::{authenticate_at, auth_outcome, opt_str};
use crate::token::{issued, jwt_of, SESSION_TTL_SECS};

verus! {

/// Status of a plain success.
pub const OK: u16 = 200;

/// Status of a success that created a record.
pub const CREATED: u16 = 201;

/// Status of a success with no body.
pub const NO_CONTENT: u16 = 204;

/// Settings read once at startup and handed to the parts that need them.
#[derive(Debug, Clone)]
pub struct Config {
    /// The secret that signs and checks session tokens.
    pub jwt_secret: Vec<u8>,
    /// Where the relational store is.
    pub database_url: String,
}

/// What a request that did not succeed reports.
#[derive(Debug, Clone, Copy, PartialEq, Eq, Structural)]
pub enum ApiError {
    /// No valid bearer token.
    Unauthenticated,
    /// A wrong secret at login.
    InvalidCredentials,
    /// No such record.
    NotFound,
    /// A failure of the store, the hasher or the token codec.
    Internal,
}

impl ApiError {
    /// The HTTP status that reports this error.
    pub fn status(&self) -> (r: u16)
        ensures
            r == (match *self {
                ApiError::Unauthenticated => 401u16,
                ApiError::InvalidCredentials => 401u16,
                ApiError::NotFound => 404u16,
                ApiError::Internal => 500u16,
            }),
    {
        match self {
            ApiError::Unauthenticated => 401,
            ApiError::InvalidCredentials => 401,
            ApiError::NotFound => 404,
            ApiError::Internal => 500,
        }
    }
}

/// An HTTP status and what goes with it.
#[derive(Debug)]
pub struct Reply<T> {
    pub status: u16,
    pub body: Result<T, ApiError>,
}

/// An account together with a token for a session just opened for it.
#[derive(Debug, Clone)]
pub struct Session {
    pub user: User,
    pub token: String,
}

/// A refusal with the error's own status.
pub fn refuse<T>(e: ApiError) -> (r: Reply<T>)
    ensures
        r.status == (match e {
            ApiError::Unauthenticated => 401u16,
            ApiError::InvalidCredentials => 401u16,
            ApiError::NotFound => 404u16,
            ApiError::Internal => 500u16,
        }),
        r.body == Err::<T, ApiError>(e),
{
    Reply { status: e.status(), body: Err(e) }
}

/// The reply to a store operation: `NotFound` is 404, any other failure 500.
pub fn repo_reply<T>(r: Result<T, RepoError>, ok_status: u16) -> (out: Reply<T>)
    ensures
        match r {
            Ok(t) => out.status == ok_status && out.body == Ok::<T, ApiError>(t),
            Err(RepoError::NotFound) => out.status == 404 && out.body == Err::<T, ApiError>(
                ApiError::NotFound,
            ),
            Err(_) => out.status == 500 && out.body == Err::<T, ApiError>(ApiError::Internal),
        },
{
    match r {
        Ok(t) => Reply { status: ok_status, body: Ok(t) },
        Err(RepoError::NotFound) => refuse(ApiError::NotFound),
        Err(_) => refuse(ApiError::Internal),
    }
}

/// Accounts and books held in memory, with the secret that signs sessions.
pub struct Service {
    secret: Vec<u8>,
    accounts: AccountStore,
    books: BookStore,
}

impl Service {
    /// The books, in storage order.
    pub closed spec fn books_view(&self) -> Seq<BookView> {
        self.books@
    }

    /// The accounts, in order of registration.
    pub closed spec fn accounts_view(&self) -> Seq<UserView> {
        self.accounts@
    }

    /// The signing secret.
    pub closed spec fn secret_view(&self) -> Seq<u8> {
        self.secret@
    }

    /// The service's invariant: ids of books, and ids and emails of accounts, are unique.
    pub open spec fn wf(&self) -> bool {
        unique_accounts(self.accounts_view()) && unique_ids(self.books_view())
    }

    /// A service with no accounts and no books, signing with the configured secret.
    pub fn new(config: &Config) -> (r: Service)
        ensures
            r.wf(),
            r.books_view() == Seq::<BookView>::empty(),
            r.accounts_view() == Seq::<UserView>::empty(),
            r.secret_view() == config.jwt_secret@,
    {
        Service { secret: config.jwt_secret.clone(), accounts: AccountStore::new(), books: BookStore::new() }
    }

    /// `POST /register`: hashes the secret under a fresh salt, opens a session
    /// for the new account and stores it (201); an email already taken, or any
    /// failure, is 500 with nothing stored.
    pub fn register(&mut self, payload: RegisterPayload, now: u64) -> (r: Reply<Session>)
        requires
            old(self).wf(),
            now <= u64::MAX - SESSION_TTL_SECS,
        ensures
            final(self).wf(),
            final(self).books_view() == old(self).books_view(),
            final(self).secret_view() == old(self).secret_view(),
            r.status == 201 <==> r.body is Ok,
            r.status != 201 ==> r.status == 500 && r.body == Err::<Session, ApiError>(
                ApiError::Internal,
            ) && final(self).accounts_view() == old(self).accounts_view(),
            has_email(old(self).accounts_view(), payload.email@) ==> r.status == 500
                && final(self).accounts_view() == old(self).accounts_view(),
            r.body is Ok ==> ({
                let s = r.body->Ok_0;
                &&& s.user@.username == payload.username@
                &&& s.user@.email == payload.email@
                &&& is_hash_of(encode_utf8(payload.password@), s.user@.password)
                &&& s.user@.created_at == now
                &&& final(self).accounts_view() == old(self).accounts_view().push(s.user@)
                &&& issued(s.token@, session_claims(s.user@, now), old(self).secret_view())
            }),
    {
        if self.accounts.find_by_email(payload.email.as_str()).is_some() {
            return refuse(ApiError::Internal);
        }
        let id = match fresh_id() {
            Some(id) => id,
            None => return refuse(ApiError::Internal),
        };
        let new = match prepare_user(payload) {
            Ok(n) => n,
            Err(_) => return refuse(ApiError::Internal),
        };
        let user = User {
            id,
            username: new.username.clone(),
            email: new.email.clone(),
            password: new.password.clone(),
            created_at: now,
        };
        let token = match open_session_at(&user, self.secret.as_slice(), now) {
            Ok(t) => t,
            Err(_) => return refuse(ApiError::Internal),
        };
        match self.accounts.insert(id, new, now) {
            Ok(stored) => Reply { status: CREATED, body: Ok(Session { user: stored, token }) },
            Err(_) => refuse(ApiError::Internal),
        }
    }

    /// `POST /login`: an unknown email is 404; a secret that does not match is
    /// 401; otherwise a session is opened for the account (200). The secret that
    /// registration hashed into the stored hash always matches it.
    pub fn login(&self, payload: &LoginPayload, now: u64) -> (r: Reply<Session>)
        requires
            self.wf(),
            now <= u64::MAX - SESSION_TTL_SECS,
        ensures
            !has_email(self.accounts_view(), payload.email@) ==> r.status == 404 && r.body
                == Err::<Session, ApiError>(ApiError::NotFound),
            has_email(self.accounts_view(), payload.email@) ==> exists|i: int|
                0 <= i < self.accounts_view().len() && #[trigger] self.accounts_view()[i].email
                    == payload.email@ && ({
                    let u = self.accounts_view()[i];
                    if !password_matches(encode_utf8(payload.password@), u.password) {
                        r.status == 401 && r.body == Err::<Session, ApiError>(
                            ApiError::InvalidCredentials,
                        )
                    } else if jwt_of(
                        uuid_text(u.id),
                        (now + SESSION_TTL_SECS) as u64,
                        Some(u.username),
                        self.secret_view(),
                    ) is Some {
                        &&& r.status == 200
                        &&& r.body is Ok
                        &&& r.body->Ok_0.user@ == u
                        &&& issued(r.body->Ok_0.token@, session_claims(u, now), self.secret_view())
                    } else {
                        r.status == 500 && r.body == Err::<Session, ApiError>(ApiError::Internal)
                    }
                } && (is_hash_of(encode_utf8(payload.password@), self.accounts_view()[i].password)
                    ==> password_matches(
                    encode_utf8(payload.password@),
                    self.accounts_view()[i].password,
                ))),
    {
        let found = self.accounts.find_by_email(payload.email.as_str());
        let user = match check_login(found, payload.password.as_str()) {
            Ok(u) => u,
            Err(e) => {
                if e == crate::accounts::AccountError::UnknownEmail {
                    return refuse(ApiError::NotFound);
                }
                return refuse(ApiError::InvalidCredentials);
            },
        };
        match open_session_at(&user, self.secret.as_slice(), now) {
            Ok(token) => Reply { status: OK, body: Ok(Session { user, token }) },
            Err(_) => refuse(ApiError::Internal),
        }
    }

    /// Whether the request carries a bearer token valid at time `now`.
    fn is_authenticated(&self, auth: Option<&str>, now: u64) -> (r: bool)
        ensures
            r == auth_outcome(opt_str(auth), self.secret_view(), now) is Some,
    {
        authenticate_at(auth, self.secret.as_slice(), now).is_ok()
    }

    /// `GET /books`: every book (200), for an authenticated request.
    pub fn get_all_books(&self, auth: Option<&str>, now: u64) -> (r: Reply<Vec<Book>>)
        ensures
            auth_outcome(opt_str(auth), self.secret_view(), now) is None ==> r.status == 401
                && r.body == Err::<Vec<Book>, ApiError>(ApiError::Unauthenticated),
            auth_outcome(opt_str(auth), self.secret_view(), now) is Some ==> r.status == 200
                && r.body is Ok && r.body->Ok_0@.map_values(|b: Book| b@) == self.books_view(),
    {
        if !self.is_authenticated(auth, now) {
            return refuse(ApiError::Unauthenticated);
        }
        Reply { status: OK, body: Ok(self.books.list_all()) }
    }

    /// `GET /books/{id}`: the book (200) or 404, for an authenticated request.
    pub fn get_book_by_id(&self, auth: Option<&str>, id: u128, now: u64) -> (r: Reply<Book>)
        requires
            self.wf(),
        ensures
            auth_outcome(opt_str(auth), self.secret_view(), now) is None ==> r.status == 401
                && r.body == Err::<Book, ApiError>(ApiError::Unauthenticated),
            auth_outcome(opt_str(auth), self.secret_view(), now) is Some ==> {
                &&& !has_id(self.books_view(), id) ==> r.status == 404 && r.body == Err::<
                    Book,
                    ApiError,
                >(ApiError::NotFound)
                &&& has_id(self.books_view(), id) ==> r.status == 200 && r.body is Ok && exists|
                    i: int,
                |
                    0 <= i < self.books_view().len() && #[trigger] self.books_view()[i].id == id
                        && r.body->Ok_0@ == self.books_view()[i]
            },
    {
        if !self.is_authenticated(auth, now) {
            return refuse(ApiError::Unauthenticated);
        }
        repo_reply(self.books.get(id), OK)
    }

    /// `POST /books`: stores a new book under the id `id` (201) for an
    /// authenticated request; an id already taken is a store error (500).
    pub fn add_book(&mut self, auth: Option<&str>, id: u128, new: NewBook, now: u64) -> (r: Reply<
        Book,
    >)
        requires
            old(self).wf(),
        ensures
            final(self).wf(),
            final(self).accounts_view() == old(self).accounts_view(),
            final(self).secret_view() == old(self).secret_view(),
            auth_outcome(opt_str(auth), old(self).secret_view(), now) is None ==> r.status == 401
                && r.body == Err::<Book, ApiError>(ApiError::Unauthenticated)
                && final(self).books_view() == old(self).books_view(),
            auth_outcome(opt_str(auth), old(self).secret_view(), now) is Some ==> {
                &&& has_id(old(self).books_view(), id) ==> r.status == 500 && r.body == Err::<
                    Book,
                    ApiError,
                >(ApiError::Internal) && final(self).books_view() == old(self).books_view()
                &&& !has_id(old(self).books_view(), id) ==> r.status == 201 && r.body is Ok
                    && r.body->Ok_0@ == (BookView {
                    id,
                    title: new.title@,
                    author: new.author@,
                }) && final(self).books_view() == old(self).books_view().push(r.body->Ok_0@)
            },
    {
        if !self.is_authenticated(auth, now) {
            return refuse(ApiError::Unauthenticated);
        }
        repo_reply(self.books.create(id, new), CREATED)
    }

    /// `PATCH /books/{id}`: changes only the fields given (200), or 404 with
    /// nothing written, for an authenticated request.
    pub fn update_book_by_id(
        &mut self,
        auth: Option<&str>,
        id: u128,
        patch: UpdateBook,
        now: u64,
    ) -> (r: Reply<Book>)
        requires
            old(self).wf(),
        ensures
            final(self).wf(),
            final(self).accounts_view() == old(self).accounts_view(),
            final(self).secret_view() == old(self).secret_view(),
            auth_outcome(opt_str(auth), old(self).secret_view(), now) is None ==> r.status == 401
                && r.body == Err::<Book, ApiError>(ApiError::Unauthenticated)
                && final(self).books_view() == old(self).books_view(),
            auth_outcome(opt_str(auth), old(self).secret_view(), now) is Some ==> {
                &&& !has_id(old(self).books_view(), id) ==> r.status == 404 && r.body == Err::<
                    Book,
                    ApiError,
                >(ApiError::NotFound) && final(self).books_view() == old(self).books_view()
                &&& has_id(old(self).books_view(), id) ==> r.status == 200 && r.body is Ok
                    && exists|i: int|
                    0 <= i < old(self).books_view().len() && #[trigger] old(
                        self,
                    ).books_view()[i].id == id && r.body->Ok_0@ == patched(
                        old(self).books_view()[i],
                        patch@,
                    ) && final(self).books_view() == old(self).books_view().update(
                        i,
                        r.body->Ok_0@,
                    )
            },
    {
        if !self.is_authenticated(auth, now) {
            return refuse(ApiError::Unauthenticated);
        }
        repo_reply(self.books.update(id, patch), OK)
    }

    /// `DELETE /books/{id}`: removes the book (204), or 404 with nothing
    /// removed, for an authenticated request. Afterwards no book has the id,
    /// so getting it gives 404.
    pub fn delete_book_by_id(&mut self, auth: Option<&str>, id: u128, now: u64) -> (r: Reply<()>)
        requires
            old(self).wf(),
        ensures
            final(self).wf(),
            final(self).accounts_view() == old(self).accounts_view(),
            final(self).secret_view() == old(self).secret_view(),
            auth_outcome(opt_str(auth), old(self).secret_view(), now) is None ==> r.status == 401
                && r.body == Err::<(), ApiError>(ApiError::Unauthenticated)
                && final(self).books_view() == old(self).books_view(),
            auth_outcome(opt_str(auth), old(self).secret_view(), now) is Some ==> {
                &&& !has_id(old(self).books_view(), id) ==> r.status == 404 && r.body == Err::<
                    (),
                    ApiError,
                >(ApiError::NotFound) && final(self).books_view() == old(self).books_view()
                &&& has_id(old(self).books_view(), id) ==> r.status == 204 && r.body is Ok
                    && deleted(old(self).books_view(), final(self).books_view(), id)
                &&& !has_id(final(self).books_view(), id)
            },
    {
        if !self.is_authenticated(auth, now) {
            return refuse(ApiError::Unauthenticated);
        }
        repo_reply(self.books.delete(id), NO_CONTENT)
    }
}

} // verus!
