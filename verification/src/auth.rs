//! Auth plumbing: the user model, signup, login, and session helpers.
use crate::error::{
    optional, viewed, AppError, AppErrorView, DbError, DbErrorKind, ServiceError,
};
use crate::ident::{simple_form, Uuid};
use crate::text::{
    ascii_lower, digit, is_white, lowered, to_lower, trim, trimmed,
};
use vstd::prelude::*;

verus! {

/// Key under which the logged-in user's id is stored in the session.
pub const SESSION_USER_ID_KEY: &'static str = "user_id";

/// The bcrypt cost of stored passwords.
pub const PASSWORD_COST: u32 = 12;

/// The hash that a login without a user is checked against: well formed and
/// of the same cost as a stored one, so that the check takes as long.
pub const ABSENT_USER_HASH: &'static str =
    "$2b$12$.....................................................";

// ---------------------------------------------------------------------------
// Model
// ---------------------------------------------------------------------------
/// A row in the `users` table. The time is microseconds since the epoch.
#[derive(Debug, Clone, PartialEq, Eq)]
pub struct User {
    pub id: Uuid,
    pub email: String,
    pub password_hash: String,
    pub created_at: i64,
}

impl User {
    /// The canonical gRPC `user_id` for this account: the simple form of its
    /// id.
    pub fn grpc_id(&self) -> (r: String)
        ensures
            r@ == simple_form(self.id.value),
    {
        self.id.simple()
    }
}

/// A user row to be stored.
#[derive(Debug, Clone, PartialEq, Eq)]
pub struct NewUser {
    pub email: String,
    pub password_hash: String,
}

/// What is asked of the users table.
#[derive(Debug, Clone, PartialEq, Eq)]
pub enum UserStatement {
    /// A new row.
    Insert(NewUser),
    /// The row with this email.
    ByEmail { email: String },
    /// The row with this id.
    ById { id: Uuid },
}

impl UserStatement {
    /// Whether the statement's answer holds the row.
    pub open spec fn answers(self, row: User) -> bool {
        match self {
            UserStatement::Insert(n) => row.email@ == n.email@ && row.password_hash@
                == n.password_hash@,
            UserStatement::ByEmail { email } => row.email@ == email@,
            UserStatement::ById { id } => row.id == id,
        }
    }
}

// ---------------------------------------------------------------------------
// The bcrypt crate
// ---------------------------------------------------------------------------
/// What `bcrypt::verify` says of a password and a hash: whether they match, or
/// the text of its error.
pub uninterp spec fn bcrypt_verdict(password: Seq<char>, hash: Seq<char>) -> Result<bool, Seq<char>>;

/// A result with its error as characters.
pub open spec fn verdict(r: Result<bool, String>) -> Result<bool, Seq<char>> {
    match r {
        Ok(b) => Ok(b),
        Err(e) => Err(e@),
    }
}

/// `bcrypt::verify`, its error displayed: a function of the password and the
/// hash.
#[verifier::external_body]
fn bcrypt_verify(password: &str, hash: &str) -> (r: Result<bool, String>)
    ensures
        verdict(r) == bcrypt_verdict(password@, hash@),
{
    bcrypt::verify(password, hash).map_err(|e| e.to_string())
}

/// A bcrypt hash of `password`: sixty characters that name the version and the
/// cost, against which the password verifies.
pub open spec fn is_hash_of(hash: Seq<char>, password: Seq<char>, cost: u32) -> bool {
    &&& 4 <= cost <= 31
    &&& hash.len() == 60
    &&& hash.subrange(0, 4) == "$2b$"@
    &&& hash.subrange(4, 6) == seq![digit(cost as nat / 10), digit(cost as nat % 10)]
    &&& hash[6] == '$'
    &&& bcrypt_verdict(password, hash) == Ok::<bool, Seq<char>>(true)
}

/// Every hash that comes out is one of the password.
pub open spec fn hashed(r: Result<String, String>, password: Seq<char>, cost: u32) -> bool {
    r matches Ok(h) ==> is_hash_of(h@, password, cost)
}

/// `bcrypt::hash`, its error displayed: if a hash comes out, it has the layout
/// of version 2b with the given cost, and `bcrypt::verify` accepts the
/// password against it. The salt rests on chance, and so does whether the
/// randomness for it can be had.
#[verifier::external_body]
fn bcrypt_hash(password: &str, cost: u32) -> (r: Result<String, String>)
    ensures
        hashed(r, password@, cost),
{
    bcrypt::hash(password, cost).map_err(|e| e.to_string())
}

// ---------------------------------------------------------------------------
// Core operations
// ---------------------------------------------------------------------------
/// An email as it is stored and looked up: trimmed, in lower case.
pub open spec fn normalized(email: Seq<char>) -> Seq<char> {
    lowered(trimmed(email))
}

/// Normalize an email, so that spellings that differ only in case or in white
/// space around them land on the same row.
pub fn normalize_email(email: &str) -> (r: String)
    ensures
        r@ == normalized(email@),
{
    to_lower(trim(email).as_str())
}

/// The row to insert for an email and the outcome of hashing its password.
///
/// `AppError::Password` if the hashing failed.
pub fn new_user(email: &str, hash: Result<String, String>) -> (r: Result<NewUser, AppError>)
    ensures
        hash matches Ok(h) ==> (r matches Ok(n) && n.email@ == normalized(email@)
            && n.password_hash == h),
        hash matches Err(t) ==> r == Err::<NewUser, AppError>(AppError::Password(t)),
{
    match hash {
        Ok(password_hash) => Ok(NewUser { email: normalize_email(email), password_hash }),
        Err(t) => Err(AppError::from(ServiceError::Password(t))),
    }
}

/// A row made from an email and a password: the normalized email, and a hash
/// against which the password verifies.
pub open spec fn registers(n: NewUser, email: Seq<char>, password: Seq<char>) -> bool {
    n.email@ == normalized(email) && is_hash_of(n.password_hash@, password, PASSWORD_COST)
}

/// The row to insert for a new user. Hashes `raw_password` with bcrypt.
///
/// `AppError::Password` on bcrypt failure.
pub fn create_user_statement(email: &str, raw_password: &str) -> (r: Result<NewUser, AppError>)
    ensures
        r matches Ok(n) ==> registers(n, email@, raw_password@),
        r matches Err(e) ==> e is Password,
{
    let hash = bcrypt_hash(raw_password, PASSWORD_COST);
    new_user(email, hash)
}

/// What the reply to the insertion of a user comes to.
pub open spec fn created(reply: Result<User, DbError>) -> Result<User, AppErrorView> {
    match reply {
        Ok(u) => Ok(u),
        Err(e) => if e.kind == DbErrorKind::UniqueViolation {
            Err(AppErrorView::Validation("Email address is already registered."@))
        } else {
            Err(AppErrorView::Db(e.text@))
        },
    }
}

/// The user that the insertion returned.
///
/// `AppError::Validation` if the email is already taken, `AppError::Db` on any
/// other failure.
pub fn create_user(reply: Result<User, DbError>) -> (r: Result<User, AppError>)
    ensures
        viewed(r) == created(reply),
{
    match reply {
        Ok(u) => Ok(u),
        Err(e) => match e.kind {
            DbErrorKind::UniqueViolation => Err(
                AppError::Validation("Email address is already registered.".to_string()),
            ),
            _ => Err(AppError::from(e)),
        },
    }
}

/// The query for the user with an email.
pub fn credentials_statement(email: &str) -> (r: UserStatement)
    ensures
        r matches UserStatement::ByEmail { email: e } && e@ == normalized(email@),
{
    UserStatement::ByEmail { email: normalize_email(email) }
}

/// The one message for every mismatch.
pub open spec fn mismatch() -> AppErrorView {
    AppErrorView::Validation("Invalid email or password."@)
}

/// What a login comes to, given the reply to the query for its email.
pub open spec fn authenticated(reply: Result<User, DbError>, password: Seq<char>) -> Result<
    User,
    AppErrorView,
> {
    match reply {
        Ok(u) => match bcrypt_verdict(password, u.password_hash@) {
            Ok(true) => Ok(u),
            Ok(false) => Err(mismatch()),
            Err(t) => Err(AppErrorView::Password(t)),
        },
        Err(e) => if e.kind == DbErrorKind::NotFound {
            Err(mismatch())
        } else {
            Err(AppErrorView::Db(e.text@))
        },
    }
}

/// The hash that a login's password is checked against: the user's, or one
/// that is nobody's where there is no such user.
pub fn hash_to_check<'a>(found: &'a Option<User>) -> (r: &'a str)
    ensures
        r@ == (match *found {
            Some(u) => u.password_hash@,
            None => ABSENT_USER_HASH@,
        }),
{
    match found {
        Some(u) => u.password_hash.as_str(),
        None => ABSENT_USER_HASH,
    }
}

/// The user, if the row found for the email holds a hash of the password.
///
/// `AppError::Validation` with a generic message on any mismatch. Where there
/// is no such user, the password is checked all the same, against a hash that
/// is nobody's.
pub fn verify_credentials(reply: Result<User, DbError>, raw_password: &str) -> (r: Result<
    User,
    AppError,
>)
    ensures
        viewed(r) == authenticated(reply, raw_password@),
{
    let found = match optional(reply) {
        Ok(f) => f,
        Err(e) => {
            return Err(e);
        },
    };
    let outcome = bcrypt_verify(raw_password, hash_to_check(&found));
    match found {
        Some(user) => checked(user, outcome),
        None => Err(AppError::Validation("Invalid email or password.".to_string())),
    }
}

/// The user, if the check of the password said that it matches.
pub fn checked(user: User, outcome: Result<bool, String>) -> (r: Result<User, AppError>)
    ensures
        outcome matches Ok(b) && b ==> r == Ok::<User, AppError>(user),
        outcome matches Ok(b) && !b ==> (r matches Err(e) && e@ == mismatch()),
        outcome matches Err(t) ==> r == Err::<User, AppError>(AppError::Password(t)),
{
    match outcome {
        Ok(matches) => if matches {
            Ok(user)
        } else {
            Err(AppError::Validation("Invalid email or password.".to_string()))
        },
        Err(t) => Err(AppError::from(ServiceError::Password(t))),
    }
}

/// The user that the query by id returned.
///
/// `AppError::Db` on query failure; `AppError::Unauthenticated` if not found.
pub fn load_user_by_id(reply: Result<User, DbError>) -> (r: Result<User, AppError>)
    ensures
        reply matches Ok(u) ==> r == Ok::<User, AppError>(u),
        reply matches Err(e) ==> r == Err::<User, AppError>(
            if e.kind == DbErrorKind::NotFound {
                AppError::Unauthenticated
            } else {
                AppError::Db(e.text)
            },
        ),
{
    match reply {
        Ok(u) => Ok(u),
        Err(e) => match e.kind {
            DbErrorKind::NotFound => Err(AppError::Unauthenticated),
            _ => Err(AppError::from(e)),
        },
    }
}

// ---------------------------------------------------------------------------
// Session helpers
// ---------------------------------------------------------------------------
/// What is asked of the session.
#[derive(Debug, Clone, Copy, PartialEq, Eq)]
pub enum SessionStatement {
    /// The id under the key.
    Read { key: &'static str },
    /// The id goes under the key, in place of what was there.
    Insert { key: &'static str, id: Uuid },
    /// Everything in the session goes.
    Flush,
}

impl SessionStatement {
    /// What the statement's answer holds, on a session as the ids under its
    /// keys.
    pub open spec fn answers(self, session: Map<Seq<char>, Uuid>) -> Option<Uuid> {
        match self {
            SessionStatement::Read { key } => if session.dom().contains(key@) {
                Some(session[key@])
            } else {
                None
            },
            _ => None,
        }
    }

    /// What the statement makes of a session.
    pub open spec fn leaves(self, session: Map<Seq<char>, Uuid>) -> Map<Seq<char>, Uuid> {
        match self {
            SessionStatement::Read { .. } => session,
            SessionStatement::Insert { key, id } => session.insert(key@, id),
            SessionStatement::Flush => Map::empty(),
        }
    }
}

/// Reads the user's id out of the session.
pub fn session_user_id_statement() -> (r: SessionStatement)
    ensures
        r == (SessionStatement::Read { key: SESSION_USER_ID_KEY }),
{
    SessionStatement::Read { key: SESSION_USER_ID_KEY }
}

/// Writes the authenticated user's id into the session.
pub fn session_set_user_statement(user: &User) -> (r: SessionStatement)
    ensures
        r == (SessionStatement::Insert { key: SESSION_USER_ID_KEY, id: user.id }),
{
    SessionStatement::Insert { key: SESSION_USER_ID_KEY, id: user.id }
}

/// Clears the session.
pub fn session_clear_statement() -> (r: SessionStatement)
    ensures
        r == SessionStatement::Flush,
{
    SessionStatement::Flush
}

/// What the session store's reply to a write comes to.
pub open spec fn written(reply: Result<(), String>) -> Result<(), AppError> {
    match reply {
        Ok(_) => Ok(()),
        Err(t) => Err(AppError::Internal(t)),
    }
}

/// The outcome of writing the user's id into the session.
pub fn session_set_user(reply: Result<(), String>) -> (r: Result<(), AppError>)
    ensures
        r == written(reply),
{
    match reply {
        Ok(_) => Ok(()),
        Err(t) => Err(AppError::Internal(t)),
    }
}

/// The query for the user whose id the session holds.
///
/// `AppError::Unauthenticated` if it holds none, `AppError::Internal` if the
/// session store could not be read.
pub fn session_current_user(read: Result<Option<Uuid>, String>) -> (r: Result<
    UserStatement,
    AppError,
>)
    ensures
        read matches Ok(Some(id)) ==> r == Ok::<UserStatement, AppError>(UserStatement::ById { id }),
        read matches Ok(None) ==> r == Err::<UserStatement, AppError>(AppError::Unauthenticated),
        read matches Err(t) ==> r == Err::<UserStatement, AppError>(AppError::Internal(t)),
{
    match read {
        Ok(Some(id)) => Ok(UserStatement::ById { id }),
        Ok(None) => Err(AppError::Unauthenticated),
        Err(t) => Err(AppError::Internal(t)),
    }
}

/// The user id in the session. `None` if there is none, and also if the
/// session store could not be read: a failing store never authenticates.
pub fn session_user_id(read: Result<Option<Uuid>, String>) -> (r: Option<Uuid>)
    ensures
        r == user_in(read),
{
    match read {
        Ok(opt) => opt,
        Err(_) => None,
    }
}

/// The user id that a read of the session gave.
pub open spec fn user_in(read: Result<Option<Uuid>, String>) -> Option<Uuid> {
    match read {
        Ok(opt) => opt,
        Err(_) => None,
    }
}

/// The outcome of clearing the session.
pub fn session_clear(reply: Result<(), String>) -> (r: Result<(), AppError>)
    ensures
        r == written(reply),
{
    match reply {
        Ok(_) => Ok(()),
        Err(t) => Err(AppError::Internal(t)),
    }
}

// ---------------------------------------------------------------------------
// Laws
// ---------------------------------------------------------------------------
/// A user id that the agent accepts: 1 to 128 letters, digits, underscores and
/// hyphens.
pub open spec fn is_agent_user_id(s: Seq<char>) -> bool {
    &&& 1 <= s.len() <= 128
    &&& forall|i: int|
        0 <= i < s.len() ==> {
            let c = #[trigger] s[i];
            'A' <= c <= 'Z' || 'a' <= c <= 'z' || '0' <= c <= '9' || c == '_' || c == '-'
        }
}

/// The gRPC id of every account is one that the agent accepts: 32 characters,
/// none of them a hyphen.
pub proof fn grpc_id_is_accepted(id: Uuid)
    ensures
        is_agent_user_id(simple_form(id.value)),
        simple_form(id.value).len() == 32,
        !simple_form(id.value).contains('-'),
{
    crate::ident::simple_form_is_hex(id.value);
    let s = simple_form(id.value);
    if s.contains('-') {
        let i = choose|i: int| 0 <= i < s.len() && s[i] == '-';
        assert(crate::ident::is_lower_hex(s[i]));
    }
}

proof fn lemma_lower_keeps_white(c: char)
    ensures
        is_white(ascii_lower(c)) == is_white(c),
        ascii_lower(ascii_lower(c)) == ascii_lower(c),
{
}

/// Trimming and lower case do not disturb each other.
proof fn lemma_trim_lower(s: Seq<char>)
    ensures
        trimmed(lowered(s)) == lowered(trimmed(s)),
{
    let (a, b) = crate::text::lemma_trimmed_cut(s);
    let t = lowered(s);
    let p = |c: char| is_white(c);
    assert forall|i: int| 0 <= i < t.len() implies is_white(#[trigger] t[i]) == is_white(s[i]) by {
        lemma_lower_keeps_white(s[i]);
    }
    if a < b {
        assert forall|i: int| 0 <= i < a implies p(t[i]) by {}
        crate::text::lemma_drop_leading(t, p, a);
        let u = t.subrange(a, t.len() as int);
        assert forall|i: int| b - a <= i < u.len() implies p(u[i]) by {
            assert(u[i] == t[a + i]);
        }
        assert(u[b - a - 1] == t[b - 1]);
        crate::text::lemma_drop_trailing(u, p, b - a);
        assert(u.subrange(0, b - a) =~= lowered(s.subrange(a, b)));
    } else {
        assert forall|i: int| 0 <= i < t.len() implies p(t[i]) by {}
        crate::text::lemma_drop_leading(t, p, t.len() as int);
        let e = t.subrange(t.len() as int, t.len() as int);
        crate::text::lemma_drop_trailing(e, p, 0);
        assert(e.subrange(0, 0) =~= lowered(s.subrange(a, b)));
    }
}

/// A normalized email is its own normal form.
pub proof fn normalizing_is_idempotent(email: Seq<char>)
    ensures
        normalized(normalized(email)) == normalized(email),
{
    let t = trimmed(email);
    lemma_trim_lower(t);
    crate::text::trimming_is_idempotent(email);
    assert forall|i: int| 0 <= i < t.len() implies #[trigger] lowered(lowered(t))[i] == lowered(
        t,
    )[i] by {
        lemma_lower_keeps_white(t[i]);
    }
    assert(lowered(lowered(t)) =~= lowered(t));
}

/// Emails that differ only in the case of ASCII letters and in white space
/// around them are one account.
pub proof fn spellings_of_an_email_are_one(
    a: Seq<char>,
    email: Seq<char>,
    b: Seq<char>,
    other: Seq<char>,
)
    requires
        forall|i: int| 0 <= i < a.len() ==> is_white(#[trigger] a[i]),
        forall|i: int| 0 <= i < b.len() ==> is_white(#[trigger] b[i]),
        lowered(other) == lowered(email),
    ensures
        normalized(a + other + b) == normalized(email),
{
    crate::text::padding_does_not_count(a, other, b);
    lemma_trim_lower(other);
    lemma_trim_lower(email);
}

/// Who signs up can log in: the row stored at signup is the one that the login
/// looks up, under any spelling of the email, and the password opens it.
pub proof fn signup_then_login(
    n: NewUser,
    user: User,
    email: Seq<char>,
    email_at_login: Seq<char>,
    password: Seq<char>,
    lookup: UserStatement,
)
    requires
        registers(n, email, password),
        UserStatement::Insert(n).answers(user),
        normalized(email_at_login) == normalized(email),
        lookup matches UserStatement::ByEmail { email: e } && e@ == normalized(email_at_login),
    ensures
        lookup.answers(user),
        authenticated(Ok(user), password) == Ok::<User, AppErrorView>(user),
{
}

/// A refused login does not say whether the email exists: no such user and a
/// wrong password are the same answer.
pub proof fn refusal_does_not_tell_which(user: User, e: DbError, password: Seq<char>)
    requires
        bcrypt_verdict(password, user.password_hash@) == Ok::<bool, Seq<char>>(false),
        e.kind == DbErrorKind::NotFound,
    ensures
        authenticated(Ok(user), password) == authenticated(Err(e), password),
        authenticated(Err(e), password) == Err::<User, AppErrorView>(mismatch()),
{
}

/// The session knows the user who was set last, whoever was set before, and
/// knows no one once it has been cleared.
pub proof fn session_knows_the_last_user(session: Map<Seq<char>, Uuid>, user: User)
    ensures
        ({
            let set = SessionStatement::Insert { key: SESSION_USER_ID_KEY, id: user.id };
            let read = SessionStatement::Read { key: SESSION_USER_ID_KEY };
            &&& user_in(Ok(read.answers(set.leaves(session)))) == Some(user.id)
            &&& user_in(Ok(read.answers(SessionStatement::Flush.leaves(session)))) is None
        }),
{
}

/// Reading the session changes nothing.
pub proof fn reading_keeps_the_session(session: Map<Seq<char>, Uuid>)
    ensures
        (SessionStatement::Read { key: SESSION_USER_ID_KEY }).leaves(session) == session,
{
}

/// The hash that stands in for a missing user's has the length, the version
/// and the cost of a stored one.
pub proof fn absent_user_hash_is_well_formed()
    ensures
        ABSENT_USER_HASH@.len() == 60,
        ABSENT_USER_HASH@.subrange(0, 4) == "$2b$"@,
        ABSENT_USER_HASH@.subrange(4, 6) == seq![
            digit(PASSWORD_COST as nat / 10),
            digit(PASSWORD_COST as nat % 10),
        ],
        ABSENT_USER_HASH@[6] == '$',
        forall|i: int| 7 <= i < 60 ==> ABSENT_USER_HASH@[i] == '.',
{
    reveal_strlit("$2b$12$.....................................................");
    reveal_strlit("$2b$");
    assert(ABSENT_USER_HASH@.subrange(0, 4) =~= "$2b$"@);
}

/// A login succeeds with the user who was found, exactly if the password
/// verifies against that user's hash; a failure of the store or of the check is
/// told as what it is.
pub proof fn only_the_password_opens_the_account(
    reply: Result<User, DbError>,
    password: Seq<char>,
)
    ensures
        authenticated(reply, password) is Ok <==> (reply matches Ok(u) && bcrypt_verdict(
            password,
            u.password_hash@,
        ) == Ok::<bool, Seq<char>>(true)),
        authenticated(reply, password) matches Ok(u) ==> reply == Ok::<User, DbError>(u),
        reply matches Err(e) ==> (authenticated(reply, password) matches Err(f) && f.message() == (
        if e.kind == DbErrorKind::NotFound {
            "Invalid email or password."@
        } else {
            "database error: "@ + e.text@
        })),
        reply matches Ok(u) ==> (bcrypt_verdict(password, u.password_hash@) == Ok::<
            bool,
            Seq<char>,
        >(false) ==> (authenticated(reply, password) matches Err(f) && f.message()
            == "Invalid email or password."@)),
        reply matches Ok(u) ==> (bcrypt_verdict(password, u.password_hash@) matches Err(t) ==> (
        authenticated(reply, password) matches Err(f) && f.message() == "password error: "@ + t)),
{
}

/// An account is made exactly if the store took its row, and the user is the one
/// that the store returned; an email that is taken is told in words for the
/// user, any other failure as it came.
pub proof fn only_a_taken_email_is_told_so(reply: Result<User, DbError>)
    ensures
        reply matches Ok(u) ==> created(reply) == Ok::<User, AppErrorView>(u),
        reply matches Err(e) ==> (created(reply) matches Err(f) && f.message() == (if e.kind
            == DbErrorKind::UniqueViolation {
            "Email address is already registered."@
        } else {
            "database error: "@ + e.text@
        })),
{
}

/// A normalized email is the email without the white space around it, and with
/// its capitals in lower case: no other character changes, and none is lost.
pub proof fn normalizing_keeps_the_letters(a: Seq<char>, email: Seq<char>, b: Seq<char>)
    requires
        forall|i: int| 0 <= i < a.len() ==> is_white(#[trigger] a[i]),
        forall|i: int| 0 <= i < b.len() ==> is_white(#[trigger] b[i]),
        email.len() > 0 ==> !is_white(email[0]) && !is_white(email.last()),
    ensures
        normalized(a + email + b).len() == email.len(),
        forall|i: int|
            0 <= i < email.len() ==> #[trigger] normalized(a + email + b)[i] as int == (if 'A'
                <= email[i] <= 'Z' {
                email[i] as int + 32
            } else {
                email[i] as int
            }),
{
    crate::text::padding_does_not_count(a, email, b);
    crate::text::lemma_trimmed_identity(email);
    crate::text::lowering_changes_capitals_alone(email);
}

/// A row that registers an account carries the email under which it is looked
/// up, and a hash that the password verifies against, of the cost that this
/// library sets.
pub proof fn accounts_are_registered_for_login(n: NewUser, email: Seq<char>, password: Seq<char>)
    requires
        registers(n, email, password),
    ensures
        n.email@ == lowered(trimmed(email)),
        bcrypt_verdict(password, n.password_hash@) == Ok::<bool, Seq<char>>(true),
        n.password_hash@.len() == 60,
        n.password_hash@.subrange(0, 7) == "$2b$12$"@,
{
    reveal_strlit("$2b$");
    reveal_strlit("$2b$12$");
    let h = n.password_hash@;
    assert(h.subrange(0, 4)[0] == h[0] && h.subrange(0, 4)[1] == h[1] && h.subrange(0, 4)[2]
        == h[2] && h.subrange(0, 4)[3] == h[3]);
    assert(h.subrange(4, 6)[0] == h[4] && h.subrange(4, 6)[1] == h[5]);
    assert(h.subrange(0, 7) =~= "$2b$12$"@);
}

/// A session store that cannot be read authenticates no one, and one that can
/// authenticates the user that it holds and no other.
pub proof fn a_failing_store_authenticates_no_one(read: Result<Option<Uuid>, String>)
    ensures
        read is Err ==> user_in(read) is None,
        user_in(read) matches Some(u) ==> read == Ok::<Option<Uuid>, String>(Some(u)),
        read matches Ok(Some(u)) ==> user_in(read) == Some(u),
{
}

/// A write to the session succeeds exactly if the store says so, and a failure
/// keeps the store's words.
pub proof fn session_writes_are_not_assumed(reply: Result<(), String>)
    ensures
        written(reply) is Ok <==> reply is Ok,
        reply matches Err(t) ==> (written(reply) matches Err(e) && e@.message()
            == "internal error: "@ + t@),
{
}

/// Setting a user touches nothing else in the session, and clearing it leaves
/// nothing.
pub proof fn only_the_user_is_set(session: Map<Seq<char>, Uuid>, user: User, key: Seq<char>)
    ensures
        ({
            let set = SessionStatement::Insert { key: SESSION_USER_ID_KEY, id: user.id };
            &&& key != "user_id"@ ==> (set.leaves(session).dom().contains(key)
                <==> session.dom().contains(key)) && (session.dom().contains(key) ==> set.leaves(
                session,
            )[key] == session[key])
            &&& set.leaves(session).dom().contains("user_id"@)
            &&& set.leaves(session)["user_id"@] == user.id
            &&& !SessionStatement::Flush.leaves(session).dom().contains(key)
        }),
{
}

/// The word of a check is taken as it came: whether it matched, or why it could
/// not be made.
pub proof fn verdicts_are_read_whole(r: Result<bool, String>)
    ensures
        r matches Ok(b) ==> verdict(r) == Ok::<bool, Seq<char>>(b),
        r matches Err(t) ==> verdict(r) == Err::<bool, Seq<char>>(t@),
{
}

} // verus!
