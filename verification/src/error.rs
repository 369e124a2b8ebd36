//! The gateway's error taxonomy. Backend-level failures abort the
//! current chat turn and surface to the HTTP caller; tool-level failures
//! are recovered locally and folded into conversation state instead —
//! a tool failure degrades the conversation, never the request.

use vstd::prelude::*;
use vstd::string::*;

verus! {

#[derive(Debug)]
pub enum AppError {
    /// A message safe to show to the HTTP caller.
    Public(String),
    /// An internal fault, reported without detail.
    Internal(String),
    /// The upstream provider answered with a non-success status; the raw
    /// response body is carried along.
    Provider { status: u16, body: String },
    /// The upstream body did not parse into the expected shape.
    MalformedResponse(String),
    /// A requested tool is not registered.
    ToolNotFound(String),
    /// A protocol request named a method this dispatcher does not serve.
    UnsupportedMethod(String),
}

impl AppError {
    pub fn public(msg: String) -> (r: Self)
        ensures
            r == AppError::Public(msg),
    {
        AppError::Public(msg)
    }

    pub fn internal(msg: String) -> (r: Self)
        ensures
            r == AppError::Internal(msg),
    {
        AppError::Internal(msg)
    }

    /// The HTTP status under which the error is reported: every failure
    /// that reaches the HTTP caller is a server error.
    pub fn status_code(&self) -> (r: u16)
        ensures
            r == 500,
    {
        500
    }

    /// The brief shown to the HTTP caller: only a public message carries
    /// its own words out; everything else is reported without detail.
    pub fn brief(&self) -> (r: String)
        ensures
            match self {
                AppError::Public(msg) => r@ == msg@,
                _ => r@ == "Internal server error."@,
            },
    {
        match self {
            AppError::Public(msg) => msg.clone(),
            _ => String::from_str("Internal server error."),
        }
    }
}

} // verus!
