//! Accounts: registration records with a hashed password, the login decision,
//! and opening a session for an account.
use vstd::prelude::*;
use vstd::string::StringSliceAdditionalSpecFns;
use vstd::utf8::encode_utf8;
use crate::credential::{
    fill_random, hash_password, is_hash_of, password_matches, verify_password, HashingError,
};
use crate::token::{
    current_time, issue, issued, jwt_of, Claims, ClaimsView,
    SESSION_TTL_SECS,
};

verus! {

/// The lower-case hexadecimal digit of `d`, for `d < 16`.
pub open spec fn hex_char(d: u128) -> char {
    seq!['0', '1', '2', '3', '4', '5', '6', '7', '8', '9', 'a', 'b', 'c', 'd', 'e', 'f'][d as int]
}

/// The `k`-th of the 32 hexadecimal digits of `id`, most significant first.
pub open spec fn uuid_nibble(id: u128, k: int) -> u128 {
    (id >> ((4 * (31 - k)) as u128)) & 15
}

/// The hyphenated form of a UUID: its 32 hexadecimal digits in groups of
/// 8, 4, 4, 4 and 12, joined by hyphens.
pub open spec fn uuid_text(id: u128) -> Seq<char> {
    Seq::new(
        36,
        |i: int|
            if i == 8 || i == 13 || i == 18 || i == 23 {
                '-'
            } else {
                let k = if i < 8 {
                    i
                } else if i < 13 {
                    i - 1
                } else if i < 18 {
                    i - 2
                } else if i < 23 {
                    i - 3
                } else {
                    i - 4
                };
                hex_char(uuid_nibble(id, k))
            },
    )
}

/// Relies on uuid's `Uuid::from_u128` (the value's bytes, most significant
/// first) and its `Display`, which writes the hyphenated lower-case form.
#[verifier::external_body]
fn uuid_string(id: u128) -> (r: String)
    ensures
        r@ == uuid_text(id),
{
    uuid::Uuid::from_u128(id).to_string()
}

/// The version-4 UUID that 16 random bytes give.
pub uninterp spec fn uuid_v4_of(bytes: Seq<u8>) -> u128;

/// Relies on uuid's `Builder::from_random_bytes`, which sets the version and
/// variant bits of the given bytes, and on `Uuid::as_u128`.
#[verifier::external_body]
fn uuid_from_random(bytes: &Vec<u8>) -> (r: u128)
    requires
        bytes@.len() == 16,
    ensures
        r == uuid_v4_of(bytes@),
{
    let arr: [u8; 16] = bytes.as_slice().try_into().unwrap_or_default();
    uuid::Builder::from_random_bytes(arr).into_uuid().as_u128()
}

/// A fresh random id, or nothing where the random source fails.
pub fn fresh_id() -> (r: Option<u128>)
    ensures
        r is Some ==> exists|b: Seq<u8>| b.len() == 16 && r->Some_0 == #[trigger] uuid_v4_of(b),
{
    let mut bytes: Vec<u8> = vec![0u8; 16];
    if !fill_random(&mut bytes) {
        return None;
    }
    Some(uuid_from_random(&bytes))
}

/// A registered account. `password` holds only the encoded hash of the secret.
#[derive(Debug, Clone)]
pub struct User {
    pub id: u128,
    pub username: String,
    pub email: String,
    pub password: String,
    pub created_at: u64,
}

/// The mathematical content of a [`User`].
pub struct UserView {
    pub id: u128,
    pub username: Seq<char>,
    pub email: Seq<char>,
    pub password: Seq<char>,
    pub created_at: u64,
}

impl View for User {
    type V = UserView;

    open spec fn view(&self) -> UserView {
        UserView {
            id: self.id,
            username: self.username@,
            email: self.email@,
            password: self.password@,
            created_at: self.created_at,
        }
    }
}

/// The fields of an account to be stored; `password` is already hashed.
#[derive(Debug, Clone)]
pub struct NewUser {
    pub username: String,
    pub email: String,
    pub password: String,
}

/// What registration is given.
#[derive(Debug, Clone)]
pub struct RegisterPayload {
    pub username: String,
    pub email: String,
    pub password: String,
}

/// What login is given.
#[derive(Debug, Clone)]
pub struct LoginPayload {
    pub email: String,
    pub password: String,
}

/// Why registration or login gave no session.
#[derive(Debug, Clone, Copy, PartialEq, Eq, Structural)]
pub enum AccountError {
    /// An account with that email exists already.
    DuplicateEmail,
    /// No account has that email.
    UnknownEmail,
    /// The secret does not match the stored hash, or the hash cannot be read.
    InvalidCredentials,
    /// The secret could not be hashed.
    HashingFailed,
    /// No token could be issued.
    TokenFailed,
    /// The store failed.
    Store,
}

impl AccountError {
    /// The HTTP status that reports this error.
    pub fn status(&self) -> (r: u16)
        ensures
            r == (match *self {
                AccountError::UnknownEmail => 404u16,
                AccountError::InvalidCredentials => 401u16,
                _ => 500u16,
            }),
    {
        match self {
            AccountError::UnknownEmail => 404,
            AccountError::InvalidCredentials => 401,
            _ => 500,
        }
    }
}

/// The claims of a session opened for `u` at time `now`.
pub open spec fn session_claims(u: UserView, now: u64) -> ClaimsView {
    ClaimsView {
        sub: uuid_text(u.id),
        exp: (now + SESSION_TTL_SECS) as u64,
        username: Some(u.username),
    }
}

/// The account record to store for a registration: the secret is hashed under
/// a fresh salt and goes no further.
pub fn prepare_user(payload: RegisterPayload) -> (r: Result<NewUser, AccountError>)
    ensures
        r is Ok ==> r->Ok_0.username@ == payload.username@ && r->Ok_0.email@ == payload.email@
            && is_hash_of(encode_utf8(payload.password@), r->Ok_0.password@),
        r is Err ==> r->Err_0 == AccountError::HashingFailed,
{
    let RegisterPayload { username, email, password } = payload;
    match hash_password(password.as_str().as_bytes()) {
        Ok(h) => Ok(NewUser { username, email, password: h }),
        Err(_) => Err(AccountError::HashingFailed),
    }
}

/// Opens a session for `user` at time `now`: a token for its id and name that
/// expires one TTL later.
pub fn open_session_at(user: &User, secret: &[u8], now: u64) -> (r: Result<String, AccountError>)
    requires
        now <= u64::MAX - SESSION_TTL_SECS,
    ensures
        r is Ok <==> jwt_of(
            uuid_text(user.id),
            (now + SESSION_TTL_SECS) as u64,
            Some(user.username@),
            secret@,
        ) is Some,
        r is Ok ==> issued(r->Ok_0@, session_claims(user@, now), secret@),
        r is Err ==> r->Err_0 == AccountError::TokenFailed,
{
    let claims = Claims::for_session(uuid_string(user.id), Some(user.username.clone()), now);
    match issue(&claims, secret) {
        Ok(t) => Ok(t),
        Err(_) => Err(AccountError::TokenFailed),
    }
}

/// Opens a session for `user` at the current time.
pub fn open_session(user: &User, secret: &[u8]) -> (r: Result<String, AccountError>)
    ensures
        r is Ok ==> exists|now: u64| issued(r->Ok_0@, #[trigger] session_claims(user@, now), secret@),
        r is Err ==> r->Err_0 == AccountError::TokenFailed,
{
    let now = current_time();
    if now > u64::MAX - SESSION_TTL_SECS {
        return Err(AccountError::TokenFailed);
    }
    open_session_at(user, secret, now)
}

/// The login decision on the account found by email: none is `UnknownEmail`;
/// a secret that does not match its hash, or a hash that cannot be read, is
/// `InvalidCredentials`. A secret whose hash the account stores always gets in.
pub fn check_login(found: Option<User>, password: &str) -> (r: Result<User, AccountError>)
    ensures
        match found {
            None => r == Err::<User, AccountError>(AccountError::UnknownEmail),
            Some(u) => if password_matches(password.spec_bytes(), u.password@) {
                r is Ok && r->Ok_0@ == u@
            } else {
                r == Err::<User, AccountError>(AccountError::InvalidCredentials)
            },
        },
        found is Some && is_hash_of(password.spec_bytes(), found->Some_0.password@) ==> r is Ok
            && r->Ok_0@ == found->Some_0@,
{
    match found {
        None => Err(AccountError::UnknownEmail),
        Some(u) => {
            let verdict = verify_password(password.as_bytes(), u.password.as_str());
            accept_if_matched(u, verdict)
        },
    }
}

/// The login decision once the secret has been checked against the account's
/// hash: only a match lets the account in; a mismatch or an unreadable hash is
/// `InvalidCredentials`.
pub fn accept_if_matched(user: User, verdict: Result<bool, HashingError>) -> (r: Result<
    User,
    AccountError,
>)
    ensures
        verdict == Ok::<bool, HashingError>(true) ==> r is Ok && r->Ok_0@ == user@,
        verdict != Ok::<bool, HashingError>(true) ==> r == Err::<User, AccountError>(
            AccountError::InvalidCredentials,
        ),
{
    match verdict {
        Ok(true) => Ok(user),
        _ => Err(AccountError::InvalidCredentials),
    }
}

/// Accounts held in memory, in order of registration.
pub struct AccountStore {
    users: Vec<User>,
}

impl View for AccountStore {
    type V = Seq<UserView>;

    closed spec fn view(&self) -> Seq<UserView> {
        self.users@.map_values(|u: User| u@)
    }
}

/// Some account of `s` has the email.
pub open spec fn has_email(s: Seq<UserView>, email: Seq<char>) -> bool {
    exists|i: int| 0 <= i < s.len() && #[trigger] s[i].email == email
}

/// Some account of `s` has the id.
pub open spec fn has_user_id(s: Seq<UserView>, id: u128) -> bool {
    exists|i: int| 0 <= i < s.len() && #[trigger] s[i].id == id
}

/// No two accounts of `s` share an id or an email.
pub open spec fn unique_accounts(s: Seq<UserView>) -> bool {
    &&& forall|i: int, j: int|
        0 <= i < s.len() && 0 <= j < s.len() && #[trigger] s[i].id == #[trigger] s[j].id ==> i == j
    &&& forall|i: int, j: int|
        0 <= i < s.len() && 0 <= j < s.len() && #[trigger] s[i].email == #[trigger] s[j].email
            ==> i == j
}

fn copy_user(u: &User) -> (r: User)
    ensures
        r@ == u@,
{
    User {
        id: u.id,
        username: u.username.clone(),
        email: u.email.clone(),
        password: u.password.clone(),
        created_at: u.created_at,
    }
}

impl AccountStore {
    /// The store's invariant: ids and emails are unique.
    pub open spec fn wf(&self) -> bool {
        unique_accounts(self@)
    }

    /// An empty store.
    pub fn new() -> (r: AccountStore)
        ensures
            r.wf(),
            r@ == Seq::<UserView>::empty(),
    {
        let r = AccountStore { users: Vec::new() };
        proof {
            assert(r@ =~= Seq::<UserView>::empty());
        }
        r
    }

    /// The account with this email, if any.
    pub fn find_by_email(&self, email: &str) -> (r: Option<User>)
        requires
            self.wf(),
        ensures
            !has_email(self@, email@) ==> r is None,
            has_email(self@, email@) ==> r is Some && exists|i: int|
                0 <= i < self@.len() && #[trigger] self@[i].email == email@ && r->Some_0@
                    == self@[i],
    {
        let wanted = email.to_owned();
        let mut i: usize = 0;
        while i < self.users.len()
            invariant
                i <= self.users@.len(),
                self@.len() == self.users@.len(),
                wanted@ == email@,
                forall|j: int| 0 <= j < i ==> #[trigger] self@[j].email != email@,
            decreases self.users@.len() - i,
        {
            proof {
                assert(self@[i as int] == self.users@[i as int]@);
            }
            if self.users[i].email.eq(&wanted) {
                let u = copy_user(&self.users[i]);
                proof {
                    assert(self@[i as int].email == email@);
                }
                return Some(u);
            }
            i = i + 1;
        }
        None
    }

    /// Stores a new account under `id`, registered at `created_at`. An email
    /// already taken, or an id already taken, is refused as the store's
    /// uniqueness constraints would refuse it.
    pub fn insert(&mut self, id: u128, new: NewUser, created_at: u64) -> (r: Result<
        User,
        AccountError,
    >)
        requires
            old(self).wf(),
        ensures
            final(self).wf(),
            has_email(old(self)@, new.email@) ==> r == Err::<User, AccountError>(
                AccountError::DuplicateEmail,
            ) && final(self)@ == old(self)@,
            !has_email(old(self)@, new.email@) && has_user_id(old(self)@, id) ==> r == Err::<
                User,
                AccountError,
            >(AccountError::Store) && final(self)@ == old(self)@,
            !has_email(old(self)@, new.email@) && !has_user_id(old(self)@, id) ==> r is Ok
                && r->Ok_0@ == (UserView {
                id,
                username: new.username@,
                email: new.email@,
                password: new.password@,
                created_at,
            }) && final(self)@ == old(self)@.push(r->Ok_0@),
    {
        if self.find_by_email(new.email.as_str()).is_some() {
            return Err(AccountError::DuplicateEmail);
        }
        let mut i: usize = 0;
        while i < self.users.len()
            invariant
                i <= self.users@.len(),
                self@.len() == self.users@.len(),
                self@ == old(self)@,
                self.wf(),
                !has_email(old(self)@, new.email@),
                forall|j: int| 0 <= j < i ==> #[trigger] self@[j].id != id,
            decreases self.users@.len() - i,
        {
            proof {
                assert(self@[i as int] == self.users@[i as int]@);
            }
            if self.users[i].id == id {
                proof {
                    assert(self@[i as int].id == id);
                }
                return Err(AccountError::Store);
            }
            i = i + 1;
        }
        let u = User {
            id,
            username: new.username,
            email: new.email,
            password: new.password,
            created_at,
        };
        let stored = copy_user(&u);
        self.users.push(stored);
        proof {
            assert(self@ =~= old(self)@.push(u@));
            assert forall|x: int, y: int|
                0 <= x < self@.len() && 0 <= y < self@.len() && #[trigger] self@[x].id
                    == #[trigger] self@[y].id implies x == y by {
                if x < old(self)@.len() && y == old(self)@.len() {
                    assert(old(self)@[x].id == id);
                }
                if y < old(self)@.len() && x == old(self)@.len() {
                    assert(old(self)@[y].id == id);
                }
            }
            assert forall|x: int, y: int|
                0 <= x < self@.len() && 0 <= y < self@.len() && #[trigger] self@[x].email
                    == #[trigger] self@[y].email implies x == y by {
                if x < old(self)@.len() && y == old(self)@.len() {
                    assert(old(self)@[x].email == u@.email);
                }
                if y < old(self)@.len() && x == old(self)@.len() {
                    assert(old(self)@[y].email == u@.email);
                }
            }
        }
        Ok(u)
    }
}

} // verus!
