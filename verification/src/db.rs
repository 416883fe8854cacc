//! Connection settings of the stores.
use crate::error::{AppError, AppErrorView};
use vstd::prelude::*;

verus! {

/// Default Redis URL of the session store when `REDIS_URL` is unset.
pub const DEFAULT_REDIS_URL: &'static str = "redis://localhost:1074";

/// The Postgres URL that the pool is built from: the value of `DATABASE_URL`.
///
/// `AppError::Db` if it is missing.
pub fn build_pool(configured: Option<String>) -> (r: Result<String, AppError>)
    ensures
        configured matches Some(u) ==> r == Ok::<String, AppError>(u),
        configured is None ==> (r matches Err(e) && e@ == AppErrorView::Db(
            "DATABASE_URL not set"@,
        )),
{
    match configured {
        Some(u) => Ok(u),
        None => Err(AppError::Db("DATABASE_URL not set".to_string())),
    }
}

/// The Redis URL of the session store: the value of `REDIS_URL`, or the
/// default.
pub fn redis_url(configured: Option<String>) -> (url: String)
    ensures
        configured matches Some(u) ==> url == u,
        configured is None ==> url@ == DEFAULT_REDIS_URL@ && url@ == "redis://localhost:1074"@,
{
    match configured {
        Some(u) => u,
        None => DEFAULT_REDIS_URL.to_string(),
    }
}

} // verus!
