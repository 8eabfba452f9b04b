use vstd::prelude::*;

verus! {

/// The error every service operation answers with; each variant carries the
/// message that the HTTP layer shows to the client.
#[derive(Debug, Clone, PartialEq, Eq)]
pub enum AppError {
    NotFound(String),
    BadRequest(String),
    Unauthorized(String),
    InternalServerError(String),
}

/// `r` is an error of the given variant whose message is `msg`.
pub open spec fn is_not_found<T>(r: Result<T, AppError>, msg: Seq<char>) -> bool {
    r matches Err(AppError::NotFound(m)) && m@ == msg
}

pub open spec fn is_bad_request<T>(r: Result<T, AppError>, msg: Seq<char>) -> bool {
    r matches Err(AppError::BadRequest(m)) && m@ == msg
}

pub open spec fn is_unauthorized<T>(r: Result<T, AppError>, msg: Seq<char>) -> bool {
    r matches Err(AppError::Unauthorized(m)) && m@ == msg
}

pub open spec fn is_internal<T>(r: Result<T, AppError>, msg: Seq<char>) -> bool {
    r matches Err(AppError::InternalServerError(m)) && m@ == msg
}

pub fn not_found(msg: &str) -> (e: AppError)
    ensures
        e matches AppError::NotFound(m) && m@ == msg@,
{
    AppError::NotFound(msg.to_owned())
}

pub fn bad_request(msg: &str) -> (e: AppError)
    ensures
        e matches AppError::BadRequest(m) && m@ == msg@,
{
    AppError::BadRequest(msg.to_owned())
}

pub fn unauthorized(msg: &str) -> (e: AppError)
    ensures
        e matches AppError::Unauthorized(m) && m@ == msg@,
{
    AppError::Unauthorized(msg.to_owned())
}

pub fn internal_error(msg: &str) -> (e: AppError)
    ensures
        e matches AppError::InternalServerError(m) && m@ == msg@,
{
    AppError::InternalServerError(msg.to_owned())
}

} // verus!
