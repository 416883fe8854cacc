//! `/login`: the form of an existing user, and the steps of what it does.
//!
//! Signing in and signing up go the same way: the pool, the session and a
//! connection have to be there, the user is found or made, and the session is
//! given the user's id. The first step that fails ends the action with its
//! message.
use crate::auth::{
    authenticated, credentials_statement, normalized, session_set_user, verify_credentials, User,
    UserStatement,
};
use crate::error::{AppError, AppErrorView, DbError, ServiceError};
use crate::routes::{no_session, session_missing};
use crate::text::{begins_with, strip_prefix};
use vstd::prelude::*;

verus! {

/// The pool has to be in the context.
pub fn pool_required(present: bool) -> (r: Result<(), String>)
    ensures
        present ==> r is Ok,
        !present ==> (r matches Err(t) && t@ == AppErrorView::Internal(
            "db pool missing from context"@,
        ).message()),
{
    if present {
        Ok(())
    } else {
        Err(AppError::Internal("db pool missing from context".to_string()).into_server_fn_error())
    }
}

/// The session has to be in the request.
pub fn session_required(session: Result<(), String>) -> (r: Result<(), String>)
    ensures
        session is Ok ==> r is Ok,
        session matches Err(t) ==> (r matches Err(e) && e@ == no_session(t@)),
{
    match session {
        Ok(_) => Ok(()),
        Err(t) => Err(session_missing(t.as_str())),
    }
}

/// The pool has to hand a connection out.
pub fn connection_required(conn: Result<(), String>) -> (r: Result<(), String>)
    ensures
        conn is Ok ==> r is Ok,
        conn matches Err(t) ==> (r matches Err(e) && e@ == AppErrorView::Db(t@).message()),
{
    match conn {
        Ok(_) => Ok(()),
        Err(t) => Err(AppError::from(ServiceError::Pool(t)).into_server_fn_error()),
    }
}

/// The query for the user who signs in.
pub fn login_statement(email: &str) -> (r: UserStatement)
    ensures
        r matches UserStatement::ByEmail { email: e } && e@ == normalized(email@),
{
    credentials_statement(email)
}

/// Authenticate an existing user: the user whose id goes into the session, or
/// a message that the user sees.
pub fn login_action(reply: Result<User, DbError>, password: &str) -> (r: Result<User, String>)
    ensures
        authenticated(reply, password@) matches Ok(u) ==> r == Ok::<User, String>(u),
        authenticated(reply, password@) matches Err(e) ==> (r matches Err(t) && t@ == e.message()),
{
    match verify_credentials(reply, password) {
        Ok(u) => Ok(u),
        Err(e) => Err(e.into_server_fn_error()),
    }
}

/// The session has been given the user's id: the browser goes to `/chat`.
pub fn signed_in(reply: Result<(), String>) -> (r: Result<&'static str, String>)
    ensures
        reply is Ok ==> (r matches Ok(l) && l@ == "/chat"@),
        reply matches Err(t) ==> (r matches Err(e) && e@ == AppErrorView::Internal(t@).message()),
{
    match session_set_user(reply) {
        Ok(_) => Ok("/chat"),
        Err(e) => Err(e.into_server_fn_error()),
    }
}

// ---------------------------------------------------------------------------
// The page
// ---------------------------------------------------------------------------
/// What the framework puts in front of a server error.
pub const SERVER_ERROR_PREFIX: &'static str = "server error: ";

/// `s` without the `prefix`es that it begins with.
pub open spec fn unprefixed(s: Seq<char>, prefix: Seq<char>) -> Seq<char>
    decreases s.len(),
{
    if prefix.len() > 0 && begins_with(s, prefix) {
        unprefixed(s.subrange(prefix.len() as int, s.len() as int), prefix)
    } else {
        s
    }
}

/// The message of a failed sign-in or sign-up as the page shows it: without
/// the framework's prefix.
pub fn error_msg(error: &str) -> (r: String)
    ensures
        r@ == unprefixed(error@, SERVER_ERROR_PREFIX@),
{
    let mut rest = error.to_string();
    loop
        invariant
            unprefixed(rest@, SERVER_ERROR_PREFIX@) == unprefixed(error@, SERVER_ERROR_PREFIX@),
        decreases rest@.len(),
    {
        proof {
            reveal_strlit("server error: ");
        }
        match strip_prefix(rest.as_str(), SERVER_ERROR_PREFIX) {
            Some(t) => {
                rest = t;
            },
            None => {
                return rest;
            },
        }
    }
}

// ---------------------------------------------------------------------------
// Laws
// ---------------------------------------------------------------------------
/// A message that is shown never begins with the prefix.
pub proof fn shown_message_has_no_prefix(s: Seq<char>)
    ensures
        !begins_with(unprefixed(s, SERVER_ERROR_PREFIX@), SERVER_ERROR_PREFIX@),
    decreases s.len(),
{
    reveal_strlit("server error: ");
    let n = SERVER_ERROR_PREFIX@.len() as int;
    if begins_with(s, SERVER_ERROR_PREFIX@) {
        shown_message_has_no_prefix(s.subrange(n, s.len() as int));
    }
}

/// A message behind the prefix is shown as it was, unless it begins with the
/// prefix itself.
pub proof fn prefix_comes_off(message: Seq<char>)
    requires
        !begins_with(message, SERVER_ERROR_PREFIX@),
    ensures
        unprefixed(SERVER_ERROR_PREFIX@ + message, SERVER_ERROR_PREFIX@) == message,
{
    reveal_strlit("server error: ");
    let p = SERVER_ERROR_PREFIX@;
    let s = p + message;
    assert(s.subrange(0, p.len() as int) =~= p);
    assert(s.subrange(p.len() as int, s.len() as int) =~= message);
    assert(unprefixed(message, p) == message);
}

/// Showing a message only takes prefixes off its front: what is shown is the
/// end of the message, and a message without the prefix is shown as it is.
pub proof fn only_prefixes_come_off(message: Seq<char>)
    ensures
        unprefixed(message, SERVER_ERROR_PREFIX@).len() <= message.len(),
        unprefixed(message, SERVER_ERROR_PREFIX@) == message.skip(
            message.len() - unprefixed(message, SERVER_ERROR_PREFIX@).len(),
        ),
        (message.len() - unprefixed(message, SERVER_ERROR_PREFIX@).len()) % 14 == 0,
        !begins_with(message, "server error: "@) ==> unprefixed(message, SERVER_ERROR_PREFIX@)
            == message,
    decreases message.len(),
{
    reveal_strlit("server error: ");
    let p = SERVER_ERROR_PREFIX@;
    let n = p.len() as int;
    assert(n == 14);
    if begins_with(message, p) {
        let rest = message.subrange(n, message.len() as int);
        only_prefixes_come_off(rest);
        let k = unprefixed(rest, p).len();
        assert(rest.skip(rest.len() - k) =~= message.skip(message.len() - k));
    } else {
        assert(message.skip(0) =~= message);
    }
}

/// Each prefix comes off by itself: a message with one more in front is shown as
/// the message without it.
pub proof fn each_prefix_comes_off(message: Seq<char>)
    ensures
        unprefixed("server error: "@ + message, SERVER_ERROR_PREFIX@) == unprefixed(
            message,
            SERVER_ERROR_PREFIX@,
        ),
{
    reveal_strlit("server error: ");
    let p = SERVER_ERROR_PREFIX@;
    let s = p + message;
    assert(s.subrange(0, p.len() as int) =~= p);
    assert(s.subrange(p.len() as int, s.len() as int) =~= message);
}

/// A sign-in gives the session the user who was found under the email, and only
/// if the password verifies against that user's hash.
pub proof fn a_sign_in_needs_the_password(
    reply: Result<User, DbError>,
    password: &str,
    r: Result<User, String>,
)
    requires
        call_ensures(login_action, (reply, password), r),
    ensures
        r matches Ok(u) ==> reply == Ok::<User, DbError>(u),
        r is Ok <==> (reply matches Ok(u) && crate::auth::bcrypt_verdict(
            password@,
            u.password_hash@,
        ) == Ok::<bool, Seq<char>>(true)),
{
    crate::auth::only_the_password_opens_the_account(reply, password@);
}

} // verus!
