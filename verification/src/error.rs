//! Application error value: a short human-readable message, shown in the
//! error banner, plus an optional diagnostic text of the underlying cause,
//! retained for logging only and never rendered.

use vstd::prelude::*;

verus! {

#[derive(Debug, Clone, PartialEq, Eq)]
pub struct AppError {
    pub msg: String,
    pub cause: Option<String>,
}

/// Mathematical image of an `AppError`.
#[verifier::ext_equal]
pub struct AppErrorView {
    pub msg: Seq<char>,
    pub cause: Option<Seq<char>>,
}

impl View for AppError {
    type V = AppErrorView;

    open spec fn view(&self) -> AppErrorView {
        AppErrorView {
            msg: self.msg@,
            cause: match self.cause {
                Some(ref c) => Some(c@),
                None => None,
            },
        }
    }
}

impl AppError {
    /// Error with a message of its own and the diagnostic text of its cause.
    pub fn new(msg: String, cause: String) -> (r: AppError)
        ensures
            r@ == (AppErrorView { msg: msg@, cause: Some(cause@) }),
    {
        AppError { msg, cause: Some(cause) }
    }

    /// Error that consists of a message alone.
    pub fn msg(msg: String) -> (r: AppError)
        ensures
            r@ == (AppErrorView { msg: msg@, cause: None }),
    {
        AppError { msg, cause: None }
    }

    /// Error whose message is the diagnostic text of its cause.
    pub fn error(cause: String) -> (r: AppError)
        ensures
            r@ == (AppErrorView { msg: cause@, cause: Some(cause@) }),
    {
        let msg = cause.clone();
        AppError { msg, cause: Some(cause) }
    }
}

} // verus!
