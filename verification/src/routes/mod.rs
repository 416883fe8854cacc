//! Route modules, one file per page, and what they share.
pub mod ask;
pub mod chat;
pub mod library;
pub mod live;
pub mod login;
pub mod signup;

use crate::auth::{session_clear, session_user_id, user_in};
use crate::error::{AppError, AppErrorView};
use crate::ident::Uuid;
use crate::text::{concat2, concat3};
use vstd::prelude::*;

verus! {

// ---------------------------------------------------------------------------
// HTTP replies of the plain handlers
// ---------------------------------------------------------------------------
pub const BAD_REQUEST: u16 = 400;

pub const UNAUTHORIZED: u16 = 401;

pub const PAYLOAD_TOO_LARGE: u16 = 413;

pub const INTERNAL_SERVER_ERROR: u16 = 500;

/// A plain-text reply that ends a request early.
#[derive(Debug, PartialEq, Eq)]
pub struct HttpError {
    pub status: u16,
    pub text: String,
}

impl HttpError {
    /// The reply has this status and this text.
    pub open spec fn is(self, status: u16, text: Seq<char>) -> bool {
        self.status == status && self.text@ == text
    }
}

/// The reply with a status and a fixed text.
pub fn http_error(status: u16, text: &str) -> (r: HttpError)
    ensures
        r.is(status, text@),
{
    HttpError { status, text: text.to_string() }
}

/// What was being done, a colon and the reason.
pub open spec fn failed(doing: Seq<char>, reason: Seq<char>) -> Seq<char> {
    doing + ": "@ + reason
}

/// The text of a failure: what was being done, a colon and the reason.
pub fn failure(doing: &str, reason: &str) -> (r: String)
    ensures
        r@ == failed(doing@, reason@),
{
    concat3(doing, ": ", reason)
}

/// The text of a failure whose reason is an application error.
pub fn app_failure(doing: &str, e: &AppError) -> (r: String)
    ensures
        r@ == failed(doing@, e@.message()),
{
    let reason = e.message();
    failure(doing, reason.as_str())
}

/// A step of a handler that needs a database connection: status 500 if there
/// is none.
pub fn connected<C>(conn: Result<C, String>) -> (r: Result<C, HttpError>)
    ensures
        conn matches Ok(c) ==> r == Ok::<C, HttpError>(c),
        conn matches Err(t) ==> (r matches Err(e) && e.is(
            INTERNAL_SERVER_ERROR,
            failed("db conn"@, t@),
        )),
{
    match conn {
        Ok(c) => Ok(c),
        Err(t) => Err(
            HttpError { status: INTERNAL_SERVER_ERROR, text: failure("db conn", t.as_str()) },
        ),
    }
}

/// The user of a handler: status 401 if the session holds none.
pub fn login_required(user: Option<Uuid>) -> (r: Result<Uuid, HttpError>)
    ensures
        user matches Some(u) ==> r == Ok::<Uuid, HttpError>(u),
        user is None ==> (r matches Err(e) && e.is(UNAUTHORIZED, "login required"@)),
{
    match user {
        Some(u) => Ok(u),
        None => Err(http_error(UNAUTHORIZED, "login required")),
    }
}

// ---------------------------------------------------------------------------
// Server functions
// ---------------------------------------------------------------------------
/// What becomes of a server function's session: the user, or the text of the
/// server error.
pub open spec fn session_user(session: Result<Result<Option<Uuid>, String>, String>) -> Result<
    Uuid,
    Seq<char>,
> {
    match session {
        Err(t) => Err(failed("session extract"@, t@)),
        Ok(read) => match user_in(read) {
            Some(u) => Ok(u),
            None => Err("unauthenticated"@),
        },
    }
}

/// A result with its error's text as characters.
pub open spec fn texted<T>(r: Result<T, String>) -> Result<T, Seq<char>> {
    match r {
        Ok(v) => Ok(v),
        Err(t) => Err(t@),
    }
}

/// The user of a server function, from the session: extracting it can fail,
/// reading it can fail, and it may hold no user.
pub fn ssr_auth(session: Result<Result<Option<Uuid>, String>, String>) -> (r: Result<Uuid, String>)
    ensures
        texted(r) == session_user(session),
{
    match session {
        Err(t) => Err(failure("session extract", t.as_str())),
        Ok(read) => match session_user_id(read) {
            Some(u) => Ok(u),
            None => Err("unauthenticated".to_string()),
        },
    }
}

/// The connection of a server function: the pool must be in the context
/// (`None` if it is not), and must hand a connection out.
pub fn ssr_conn(checkout: Option<Result<(), String>>) -> (r: Result<(), String>)
    ensures
        texted(r) == (match checkout {
            None => Err::<(), Seq<char>>("DbPool context missing"@),
            Some(Ok(_)) => Ok(()),
            Some(Err(t)) => Err(failed("db conn"@, t@)),
        }),
{
    match checkout {
        None => Err("DbPool context missing".to_string()),
        Some(Ok(_)) => Ok(()),
        Some(Err(t)) => Err(failure("db conn", t.as_str())),
    }
}

/// The outcome of a step of a server function, with what was being done in
/// front of its error.
pub fn doing<T>(what: &str, r: Result<T, AppError>) -> (s: Result<T, String>)
    ensures
        r matches Ok(v) ==> s == Ok::<T, String>(v),
        r matches Err(e) ==> (s matches Err(t) && t@ == failed(what@, e@.message())),
{
    match r {
        Ok(v) => Ok(v),
        Err(e) => Err(app_failure(what, &e)),
    }
}

// ---------------------------------------------------------------------------
// Logout
// ---------------------------------------------------------------------------
/// The text of the server error when a form action finds no session.
pub open spec fn no_session(reason: Seq<char>) -> Seq<char> {
    AppErrorView::Internal("session extract failed: "@ + reason).message()
}

/// The text of the server error when a form action finds no session.
pub fn session_missing(reason: &str) -> (r: String)
    ensures
        r@ == no_session(reason@),
{
    AppError::Internal(concat2("session extract failed: ", reason)).into_server_fn_error()
}

/// Clear the session and redirect to `/login`. The session store is asked only
/// if the session could be extracted; its reply comes with it.
pub fn logout_action(session: Result<Result<(), String>, String>) -> (r: Result<
    &'static str,
    String,
>)
    ensures
        session matches Ok(Ok(_)) ==> (r matches Ok(l) && l@ == "/login"@),
        session matches Ok(Err(t)) ==> (r matches Err(e) && e@ == AppErrorView::Internal(
            t@,
        ).message()),
        session matches Err(t) ==> (r matches Err(e) && e@ == no_session(t@)),
{
    match session {
        Err(t) => Err(session_missing(t.as_str())),
        Ok(reply) => match session_clear(reply) {
            Ok(_) => Ok("/login"),
            Err(e) => Err(e.into_server_fn_error()),
        },
    }
}

// ---------------------------------------------------------------------------
// Laws
// ---------------------------------------------------------------------------
/// A failure tells what was being done and the whole reason, with a colon and a
/// space between them.
pub proof fn failures_are_told_in_full(doing: Seq<char>, reason: Seq<char>)
    ensures
        failed(doing, reason).len() == doing.len() + 2 + reason.len(),
        failed(doing, reason).subrange(0, doing.len() as int) == doing,
        failed(doing, reason).subrange(doing.len() as int, doing.len() as int + 2) == seq![':', ' '],
        failed(doing, reason).skip(doing.len() as int + 2) == reason,
{
    reveal_strlit(": ");
    assert(failed(doing, reason).subrange(0, doing.len() as int) =~= doing);
    assert(failed(doing, reason).subrange(doing.len() as int, doing.len() as int + 2) =~= seq![':', ' ']);
    assert(failed(doing, reason).skip(doing.len() as int + 2) =~= reason);
}

/// A reply is known by its status and its text.
pub proof fn replies_are_told_apart(e: HttpError, status: u16, text: Seq<char>)
    ensures
        e.is(status, text) <==> e.status == status && e.text@ == text,
        e.is(e.status, e.text@),
{
}

/// The statuses of the replies that end a request early.
pub proof fn statuses_are_the_registered_ones()
    ensures
        BAD_REQUEST == 400,
        UNAUTHORIZED == 401,
        PAYLOAD_TOO_LARGE == 413,
        INTERNAL_SERVER_ERROR == 500,
{
}

/// A server function works for the user that the session holds and for no one
/// else: no session, a session that cannot be read and a session without a user
/// end it.
pub proof fn only_the_sessions_user_is_served(
    session: Result<Result<Option<Uuid>, String>, String>,
)
    ensures
        session_user(session) matches Ok(u) ==> session == Ok::<
            Result<Option<Uuid>, String>,
            String,
        >(Ok(Some(u))),
        session matches Ok(Ok(Some(u))) ==> session_user(session) == Ok::<Uuid, Seq<char>>(u),
        session matches Ok(Ok(None)) ==> session_user(session) == Err::<Uuid, Seq<char>>(
            "unauthenticated"@,
        ),
        session matches Ok(Err(_)) ==> session_user(session) == Err::<Uuid, Seq<char>>(
            "unauthenticated"@,
        ),
        session matches Err(t) ==> session_user(session) == Err::<Uuid, Seq<char>>(
            "session extract: "@ + t@,
        ),
{
    reveal_strlit("session extract");
    reveal_strlit(": ");
    reveal_strlit("session extract: ");
    match session {
        Err(t) => {
            assert(failed("session extract"@, t@) =~= "session extract: "@ + t@);
        },
        _ => {},
    }
}

/// A form action without a session ends with an internal error that tells the
/// reason.
pub proof fn a_missing_session_is_told(reason: Seq<char>)
    ensures
        no_session(reason) == "internal error: "@ + ("session extract failed: "@ + reason),
{
}

/// Reading an outcome by its error's text changes nothing of a success and loses
/// nothing of a failure.
pub proof fn errors_are_read_whole<T>(r: Result<T, String>)
    ensures
        r matches Ok(v) ==> texted(r) == Ok::<T, Seq<char>>(v),
        r matches Err(t) ==> texted(r) == Err::<T, Seq<char>>(t@),
        texted(r) is Ok <==> r is Ok,
{
}

} // verus!
