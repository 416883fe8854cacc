//! `/signup`: the form of a new user, and the steps of what it does beyond
//! those of signing in.
use crate::auth::{create_user, create_user_statement, created, registers, User, UserStatement};
use crate::error::{AppError, AppErrorView, DbError};
use vstd::prelude::*;

verus! {

/// The shortest password, in bytes of its UTF-8 encoding.
pub const MIN_PASSWORD_BYTES: usize = 8;

/// The words of a refusal for a short password.
pub open spec fn too_short() -> Seq<char> {
    "Password must be at least 8 characters."@
}

/// The password has to be long enough; this is looked at before anything else.
pub fn password_required(password: &str) -> (r: Result<(), String>)
    ensures
        vstd::utf8::encode_utf8(password@).len() >= MIN_PASSWORD_BYTES ==> r is Ok,
        vstd::utf8::encode_utf8(password@).len() < MIN_PASSWORD_BYTES ==> (r matches Err(t) && t@
            == too_short()),
{
    let bytes = password.as_bytes();
    if bytes.len() < MIN_PASSWORD_BYTES {
        Err(
            AppError::Validation(
                "Password must be at least 8 characters.".to_string(),
            ).into_server_fn_error(),
        )
    } else {
        Ok(())
    }
}

/// The row of a new account, or the message of a password that could not be
/// hashed.
pub fn signup_statement(email: &str, password: &str) -> (r: Result<UserStatement, String>)
    ensures
        r matches Ok(s) ==> (s matches UserStatement::Insert(n) && registers(n, email@, password@)),
        r matches Err(t) ==> exists|reason: Seq<char>|
            t@ == #[trigger] AppErrorView::Password(reason).message(),
{
    match create_user_statement(email, password) {
        Ok(n) => Ok(UserStatement::Insert(n)),
        Err(e) => {
            proof {
                let v = e@;
                assert(v matches AppErrorView::Password(reason) && v == AppErrorView::Password(
                    reason,
                ));
            }
            Err(e.into_server_fn_error())
        },
    }
}

/// Create a new user account: the user whose id goes into the session, or a
/// message that the user sees.
pub fn signup_action(reply: Result<User, DbError>) -> (r: Result<User, String>)
    ensures
        created(reply) matches Ok(u) ==> r == Ok::<User, String>(u),
        created(reply) matches Err(e) ==> (r matches Err(t) && t@ == e.message()),
{
    match create_user(reply) {
        Ok(u) => Ok(u),
        Err(e) => Err(e.into_server_fn_error()),
    }
}

// ---------------------------------------------------------------------------
// Laws
// ---------------------------------------------------------------------------
/// The refusal of a short password names the shortest length that is taken.
pub proof fn the_refusal_names_the_length()
    ensures
        MIN_PASSWORD_BYTES == 8,
        too_short() == "Password must be at least "@ + crate::text::decimal(
            MIN_PASSWORD_BYTES as nat,
        ) + " characters."@,
{
    reveal_strlit("Password must be at least 8 characters.");
    reveal_strlit("Password must be at least ");
    reveal_strlit(" characters.");
    assert(crate::text::decimal(8) =~= seq!['8']);
    assert(too_short() =~= "Password must be at least "@ + crate::text::decimal(8)
        + " characters."@);
}

/// A sign-up gives the session the user whose row was stored, and only if it was
/// stored.
pub proof fn a_sign_up_needs_its_row(reply: Result<User, DbError>, r: Result<User, String>)
    requires
        call_ensures(signup_action, (reply,), r),
    ensures
        reply matches Ok(u) ==> r == Ok::<User, String>(u),
        reply is Err ==> r is Err,
{
    crate::auth::only_a_taken_email_is_told_so(reply);
}

} // verus!
