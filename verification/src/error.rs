//! Application-level error type.
//!
//! `AppError` is the error of every operation in this crate. Its text is what
//! a server function hands to the browser.
use crate::text::concat2;
use vstd::prelude::*;

verus! {

/// What went wrong, with the text that explains it.
#[derive(Debug, PartialEq, Eq)]
pub enum AppError {
    /// Database query or connection failure.
    Db(String),
    /// Password hashing or verification failure.
    Password(String),
    /// The caller is not authenticated.
    Unauthenticated,
    /// gRPC transport or application error.
    Grpc(String),
    /// A user-visible validation failure (e.g. email already taken).
    Validation(String),
    /// Catch-all for unexpected failures.
    Internal(String),
}

/// An error with its text as characters.
pub enum AppErrorView {
    Db(Seq<char>),
    Password(Seq<char>),
    Unauthenticated,
    Grpc(Seq<char>),
    Validation(Seq<char>),
    Internal(Seq<char>),
}

impl View for AppError {
    type V = AppErrorView;

    open spec fn view(&self) -> AppErrorView {
        match self {
            AppError::Db(s) => AppErrorView::Db(s@),
            AppError::Password(s) => AppErrorView::Password(s@),
            AppError::Unauthenticated => AppErrorView::Unauthenticated,
            AppError::Grpc(s) => AppErrorView::Grpc(s@),
            AppError::Validation(s) => AppErrorView::Validation(s@),
            AppError::Internal(s) => AppErrorView::Internal(s@),
        }
    }
}

impl AppErrorView {
    /// The text shown for the error: its own words behind the words of its
    /// kind. A validation failure speaks for itself.
    pub open spec fn message(self) -> Seq<char> {
        match self {
            AppErrorView::Db(s) => "database error: "@ + s,
            AppErrorView::Password(s) => "password error: "@ + s,
            AppErrorView::Unauthenticated => "not authenticated"@,
            AppErrorView::Grpc(s) => "grpc error: "@ + s,
            AppErrorView::Validation(s) => s,
            AppErrorView::Internal(s) => "internal error: "@ + s,
        }
    }
}

impl AppError {
    /// The text shown for the error.
    pub fn message(&self) -> (r: String)
        ensures
            r@ == self@.message(),
    {
        match self {
            AppError::Db(s) => concat2("database error: ", s.as_str()),
            AppError::Password(s) => concat2("password error: ", s.as_str()),
            AppError::Unauthenticated => "not authenticated".to_string(),
            AppError::Grpc(s) => concat2("grpc error: ", s.as_str()),
            AppError::Validation(s) => s.clone(),
            AppError::Internal(s) => concat2("internal error: ", s.as_str()),
        }
    }

    /// The text of the server error that the browser receives.
    pub fn into_server_fn_error(self) -> (r: String)
        ensures
            r@ == self@.message(),
    {
        self.message()
    }
}

// ---------------------------------------------------------------------------
// Database replies
// ---------------------------------------------------------------------------
/// What a failed statement says of the reason.
#[derive(Clone, Copy, Debug, PartialEq, Eq, Structural)]
pub enum DbErrorKind {
    /// A row was asked for and there is none.
    NotFound,
    /// A unique column already holds the value.
    UniqueViolation,
    /// Anything else.
    Other,
}

/// The reply of a statement that failed.
#[derive(Debug, PartialEq, Eq)]
pub struct DbError {
    pub kind: DbErrorKind,
    pub text: String,
}

impl From<DbError> for AppError {
    fn from(e: DbError) -> (r: Self) {
        AppError::Db(e.text)
    }
}

impl vstd::std_specs::convert::FromSpecImpl<DbError> for AppError {
    open spec fn obeys_from_spec() -> bool {
        true
    }

    open spec fn from_spec(e: DbError) -> AppError {
        AppError::Db(e.text)
    }
}

/// The failure of a service other than a statement.
#[derive(Debug, PartialEq, Eq)]
pub enum ServiceError {
    /// The pool handed no connection out.
    Pool(String),
    /// Hashing or checking a password.
    Password(String),
    /// The agent replied with a status that is not OK; the text is its message.
    GrpcStatus(String),
    /// The agent could not be reached.
    GrpcTransport(String),
    /// Anything else.
    Other(String),
}

impl From<ServiceError> for AppError {
    fn from(e: ServiceError) -> (r: Self) {
        match e {
            ServiceError::Pool(t) => AppError::Db(t),
            ServiceError::Password(t) => AppError::Password(t),
            ServiceError::GrpcStatus(t) => AppError::Grpc(t),
            ServiceError::GrpcTransport(t) => AppError::Grpc(t),
            ServiceError::Other(t) => AppError::Internal(t),
        }
    }
}

impl vstd::std_specs::convert::FromSpecImpl<ServiceError> for AppError {
    open spec fn obeys_from_spec() -> bool {
        true
    }

    open spec fn from_spec(e: ServiceError) -> AppError {
        match e {
            ServiceError::Pool(t) => AppError::Db(t),
            ServiceError::Password(t) => AppError::Password(t),
            ServiceError::GrpcStatus(t) => AppError::Grpc(t),
            ServiceError::GrpcTransport(t) => AppError::Grpc(t),
            ServiceError::Other(t) => AppError::Internal(t),
        }
    }
}

/// A result with its error's text as characters.
pub open spec fn viewed<T>(r: Result<T, AppError>) -> Result<T, AppErrorView> {
    match r {
        Ok(v) => Ok(v),
        Err(e) => Err(e@),
    }
}

/// The reply of a query for one row, where no row is no failure.
pub fn optional<T>(reply: Result<T, DbError>) -> (r: Result<Option<T>, AppError>)
    ensures
        r == optional_reply(reply),
{
    match reply {
        Ok(row) => Ok(Some(row)),
        Err(e) => match e.kind {
            DbErrorKind::NotFound => Ok(None),
            _ => Err(AppError::from(e)),
        },
    }
}

/// A missing row becomes `None`; every other failure stays one.
pub open spec fn optional_reply<T>(reply: Result<T, DbError>) -> Result<Option<T>, AppError> {
    match reply {
        Ok(row) => Ok(Some(row)),
        Err(e) => if e.kind == DbErrorKind::NotFound {
            Ok(None)
        } else {
            Err(AppError::Db(e.text))
        },
    }
}

// ---------------------------------------------------------------------------
// Laws
// ---------------------------------------------------------------------------
/// The text that an error holds is shown whole: it is what follows the words of
/// its kind.
pub proof fn errors_are_shown_whole(e: AppError)
    ensures
        e matches AppError::Db(s) ==> e@.message() == "database error: "@ + s@,
        e matches AppError::Password(s) ==> e@.message() == "password error: "@ + s@,
        e is Unauthenticated ==> e@.message() == "not authenticated"@,
        e matches AppError::Grpc(s) ==> e@.message() == "grpc error: "@ + s@,
        e matches AppError::Validation(s) ==> e@.message() == s@,
        e matches AppError::Internal(s) ==> e@.message() == "internal error: "@ + s@,
{
}

/// Different failures of one kind read differently.
pub proof fn messages_tell_texts_apart(a: Seq<char>, b: Seq<char>)
    requires
        a != b,
    ensures
        AppErrorView::Db(a).message() != AppErrorView::Db(b).message(),
        AppErrorView::Password(a).message() != AppErrorView::Password(b).message(),
        AppErrorView::Grpc(a).message() != AppErrorView::Grpc(b).message(),
        AppErrorView::Validation(a).message() != AppErrorView::Validation(b).message(),
        AppErrorView::Internal(a).message() != AppErrorView::Internal(b).message(),
{
    lemma_suffix("database error: "@, a);
    lemma_suffix("database error: "@, b);
    lemma_suffix("password error: "@, a);
    lemma_suffix("password error: "@, b);
    lemma_suffix("grpc error: "@, a);
    lemma_suffix("grpc error: "@, b);
    lemma_suffix("internal error: "@, a);
    lemma_suffix("internal error: "@, b);
}

proof fn lemma_suffix(p: Seq<char>, s: Seq<char>)
    ensures
        (p + s).subrange(p.len() as int, (p + s).len() as int) == s,
{
    assert((p + s).subrange(p.len() as int, (p + s).len() as int) =~= s);
}

/// A row that was found is handed on, a missing row is no failure, and no other
/// failure passes for a missing row.
pub proof fn only_a_missing_row_is_none<T>(reply: Result<T, DbError>)
    ensures
        reply matches Ok(row) ==> optional_reply(reply) == Ok::<Option<T>, AppError>(Some(row)),
        reply matches Err(e) ==> (optional_reply(reply) == Ok::<Option<T>, AppError>(None) <==> e.kind
            == DbErrorKind::NotFound),
        reply matches Err(e) ==> (e.kind != DbErrorKind::NotFound ==> optional_reply(reply) == Err::<
            Option<T>,
            AppError,
        >(AppError::Db(e.text))),
{
}

/// A validation failure reaches the user in its own words, and no other error
/// does so without naming its kind.
pub proof fn only_validation_speaks_for_itself(e: AppErrorView)
    ensures
        e matches AppErrorView::Validation(s) ==> e.message() == s,
        e matches AppErrorView::Db(s) ==> crate::text::begins_with(e.message(), "database error: "@),
        e matches AppErrorView::Password(s) ==> crate::text::begins_with(
            e.message(),
            "password error: "@,
        ),
        e matches AppErrorView::Grpc(s) ==> crate::text::begins_with(e.message(), "grpc error: "@),
        e matches AppErrorView::Internal(s) ==> crate::text::begins_with(
            e.message(),
            "internal error: "@,
        ),
{
    match e {
        AppErrorView::Db(s) => {
            let p = "database error: "@;
            assert((p + s).subrange(0, p.len() as int) =~= p);
        },
        AppErrorView::Password(s) => {
            let p = "password error: "@;
            assert((p + s).subrange(0, p.len() as int) =~= p);
        },
        AppErrorView::Grpc(s) => {
            let p = "grpc error: "@;
            assert((p + s).subrange(0, p.len() as int) =~= p);
        },
        AppErrorView::Internal(s) => {
            let p = "internal error: "@;
            assert((p + s).subrange(0, p.len() as int) =~= p);
        },
        _ => {},
    }
}

/// A failed statement is a database error, and every other failure keeps its
/// kind; none loses its text.
pub proof fn failures_keep_their_text(d: DbError, e: ServiceError)
    ensures
        <AppError as vstd::std_specs::convert::FromSpec<DbError>>::from_spec(d)@.message()
            == "database error: "@ + d.text@,
        <AppError as vstd::std_specs::convert::FromSpec<ServiceError>>::from_spec(e)@.message()
            == (match e {
            ServiceError::Pool(t) => "database error: "@ + t@,
            ServiceError::Password(t) => "password error: "@ + t@,
            ServiceError::GrpcStatus(t) => "grpc error: "@ + t@,
            ServiceError::GrpcTransport(t) => "grpc error: "@ + t@,
            ServiceError::Other(t) => "internal error: "@ + t@,
        }),
{
}

/// Reading an outcome by its error's text changes nothing of a success and loses
/// nothing of a failure.
pub proof fn outcomes_are_read_whole<T>(r: Result<T, AppError>)
    ensures
        r matches Ok(v) ==> viewed(r) == Ok::<T, AppErrorView>(v),
        r matches Err(e) ==> viewed(r) == Err::<T, AppErrorView>(e@),
        viewed(r) is Ok <==> r is Ok,
{
}

} // verus!
