//! The service error type, its HTTP status, and its message text.

use vstd::prelude::*;
use vstd::string::StringExecFns;

verus! {

/// Why a gateway or API operation failed, with a message.
#[derive(Debug)]
pub enum WaveFlowError {
    Config(String),
    Database(String),
    NotFound(String),
    Webhook(String),
    Unauthorized(String),
    Validation(String),
    Conflict(String),
    Internal(String),
}

/// The HTTP status that each kind of error answers with.
pub open spec fn status_of(e: WaveFlowError) -> u16 {
    match e {
        WaveFlowError::Config(_) => 500,
        WaveFlowError::Database(_) => 500,
        WaveFlowError::NotFound(_) => 404,
        WaveFlowError::Webhook(_) => 400,
        WaveFlowError::Unauthorized(_) => 401,
        WaveFlowError::Validation(_) => 400,
        WaveFlowError::Conflict(_) => 409,
        WaveFlowError::Internal(_) => 500,
    }
}

/// The words that open each kind of error's message.
pub open spec fn prefix_of(e: WaveFlowError) -> Seq<char> {
    match e {
        WaveFlowError::Config(_) => "configuration error: "@,
        WaveFlowError::Database(_) => "database error: "@,
        WaveFlowError::NotFound(_) => "not found: "@,
        WaveFlowError::Webhook(_) => "webhook error: "@,
        WaveFlowError::Unauthorized(_) => "unauthorized: "@,
        WaveFlowError::Validation(_) => "validation error: "@,
        WaveFlowError::Conflict(_) => "conflict: "@,
        WaveFlowError::Internal(_) => "internal error: "@,
    }
}

pub open spec fn detail_of(e: WaveFlowError) -> Seq<char> {
    match e {
        WaveFlowError::Config(m) => m@,
        WaveFlowError::Database(m) => m@,
        WaveFlowError::NotFound(m) => m@,
        WaveFlowError::Webhook(m) => m@,
        WaveFlowError::Unauthorized(m) => m@,
        WaveFlowError::Validation(m) => m@,
        WaveFlowError::Conflict(m) => m@,
        WaveFlowError::Internal(m) => m@,
    }
}

/// The full message text of an error: its kind's opening words, then its detail.
pub open spec fn message_of(e: WaveFlowError) -> Seq<char> {
    prefix_of(e) + detail_of(e)
}

impl WaveFlowError {
    /// The HTTP status code this error maps to.
    pub fn http_status_code(&self) -> (r: u16)
        ensures
            r == status_of(*self),
    {
        match self {
            WaveFlowError::Config(_) => 500,
            WaveFlowError::Database(_) => 500,
            WaveFlowError::NotFound(_) => 404,
            WaveFlowError::Webhook(_) => 400,
            WaveFlowError::Unauthorized(_) => 401,
            WaveFlowError::Validation(_) => 400,
            WaveFlowError::Conflict(_) => 409,
            WaveFlowError::Internal(_) => 500,
        }
    }

    /// Whether this is a `Validation` error (an ignored, not a failed, delivery).
    pub fn is_validation(&self) -> (r: bool)
        ensures
            r == (*self is Validation),
    {
        match self {
            WaveFlowError::Validation(_) => true,
            _ => false,
        }
    }

    /// The detail this error carries.
    pub fn detail(&self) -> (r: &String)
        ensures
            r@ == detail_of(*self),
    {
        match self {
            WaveFlowError::Config(m) => m,
            WaveFlowError::Database(m) => m,
            WaveFlowError::NotFound(m) => m,
            WaveFlowError::Webhook(m) => m,
            WaveFlowError::Unauthorized(m) => m,
            WaveFlowError::Validation(m) => m,
            WaveFlowError::Conflict(m) => m,
            WaveFlowError::Internal(m) => m,
        }
    }

    /// The message text of this error, as shown to clients and in logs.
    pub fn message(&self) -> (r: String)
        ensures
            r@ == message_of(*self),
    {
        let prefix = match self {
            WaveFlowError::Config(_) => "configuration error: ",
            WaveFlowError::Database(_) => "database error: ",
            WaveFlowError::NotFound(_) => "not found: ",
            WaveFlowError::Webhook(_) => "webhook error: ",
            WaveFlowError::Unauthorized(_) => "unauthorized: ",
            WaveFlowError::Validation(_) => "validation error: ",
            WaveFlowError::Conflict(_) => "conflict: ",
            WaveFlowError::Internal(_) => "internal error: ",
        };
        let mut r = String::from_str(prefix);
        r.append(self.detail().as_str());
        r
    }
}

} // verus!
