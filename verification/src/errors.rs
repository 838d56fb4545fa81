//! What a caller is told of a request that was turned down: one status code
//! and one message for every kind of refusal.

use vstd::prelude::*;
use crate::b64::{base64_fault_text, decode_error_text};
use crate::models::ModelErr;
use crate::text::joined;
use crate::sign_data::{Reason, SignDataErr};

verus! {

pub const BAD_REQUEST: u16 = 400;

pub const UNAUTHORIZED: u16 = 401;

pub const NOT_FOUND: u16 = 404;

pub const METHOD_NOT_ALLOWED: u16 = 405;

pub const CONFLICT: u16 = 409;

pub const INTERNAL_SERVER_ERROR: u16 = 500;

/// Why the boundary turned a request down, as far as the answer depends on
/// it.
#[derive(Debug, Clone, PartialEq, Eq)]
pub enum Rejected {
    /// No route matched.
    NotFound,
    /// The notarization itself refused.
    SignData(SignDataErr),
    /// The body is not a request; the text says why.
    BodyDeserialize(String),
    /// The route exists for another method.
    MethodNotAllowed,
    /// Anything else.
    Unhandled,
}

/// An error as the caller sees it.
#[derive(Debug, Clone, PartialEq, Eq)]
pub struct ErrResp {
    pub statuscode: u16,
    pub message: String,
}

/// The status code of each kind of refusal.
pub open spec fn status_of(reason: Reason) -> u16 {
    match reason {
        Reason::BadEncoding => BAD_REQUEST,
        Reason::PowFailed => BAD_REQUEST,
        Reason::AlreadyNotarized => CONFLICT,
        Reason::Unavailable => INTERNAL_SERVER_ERROR,
        Reason::Internal => INTERNAL_SERVER_ERROR,
    }
}

/// The status code of each kind of refusal.
pub fn status_code(reason: Reason) -> (code: u16)
    ensures
        code == status_of(reason),
{
    match reason {
        Reason::BadEncoding => BAD_REQUEST,
        Reason::PowFailed => BAD_REQUEST,
        Reason::AlreadyNotarized => CONFLICT,
        Reason::Unavailable => INTERNAL_SERVER_ERROR,
        Reason::Internal => INTERNAL_SERVER_ERROR,
    }
}

/// The message for each error of a notarization. Faults of the request say
/// what to mend; faults of the service say nothing of their cause.
pub open spec fn message_of(e: SignDataErr) -> Seq<char> {
    match e {
        SignDataErr::DbConn(_) => "Internal server error"@,
        SignDataErr::Model(ModelErr::AlreadyExists(_)) => "Resource already exists"@,
        SignDataErr::Model(ModelErr::OtherDieselErr(_)) => "Internal server error"@,
        SignDataErr::SerializeFieldsSigned(_) => "Internal server error"@,
        SignDataErr::B64DecodeBody(e) => "Invalid base64 field: "@ + base64_fault_text(e),
        SignDataErr::B64DecodePowProof(e) => "Invalid base64 field: "@ + base64_fault_text(e),
        SignDataErr::PowProofLength => "Invalid PoW proof: not a sequence of 32-bit words"@,
        SignDataErr::PowRejected => "PoW proof didn't pass verification"@,
    }
}

/// The answer to a bare status code.
pub open spec fn status_answer(sc: u16) -> (u16, Seq<char>) {
    if sc == UNAUTHORIZED {
        (sc, "Unauthorized"@)
    } else if sc == METHOD_NOT_ALLOWED {
        (sc, "Method not Allowed"@)
    } else {
        (INTERNAL_SERVER_ERROR, "UNHANDLED_REJECTION"@)
    }
}

/// The answer to each rejection.
pub open spec fn rejection_answer(r: Rejected) -> (u16, Seq<char>) {
    match r {
        Rejected::NotFound => (NOT_FOUND, "Not found"@),
        Rejected::SignData(e) => (status_of(e.reason_spec()), message_of(e)),
        Rejected::BodyDeserialize(text) => (BAD_REQUEST, "Bad Request: "@ + text@),
        Rejected::MethodNotAllowed => status_answer(METHOD_NOT_ALLOWED),
        Rejected::Unhandled => (INTERNAL_SERVER_ERROR, "UNHANDLED_REJECTION"@),
    }
}

impl ErrResp {
    pub fn new(code: u16, msg: &str) -> (resp: Self)
        ensures
            resp.statuscode == code,
            resp.message@ == msg@,
    {
        ErrResp { statuscode: code, message: msg.to_owned() }
    }

    /// The status and message as a pair.
    pub open spec fn answer(&self) -> (u16, Seq<char>) {
        (self.statuscode, self.message@)
    }

    /// The answer to a bare status code: two codes have a message of their
    /// own, every other is an unhandled rejection.
    pub fn from_status(sc: u16) -> (resp: Self)
        ensures
            resp.answer() == status_answer(sc),
    {
        if sc == UNAUTHORIZED {
            ErrResp::new(sc, "Unauthorized")
        } else if sc == METHOD_NOT_ALLOWED {
            ErrResp::new(sc, "Method not Allowed")
        } else {
            ErrResp::new(INTERNAL_SERVER_ERROR, "UNHANDLED_REJECTION")
        }
    }

    /// The answer to an error of a notarization: the status code of its
    /// reason, and its message.
    pub fn from_sign_data_err(e: &SignDataErr) -> (resp: Self)
        ensures
            resp.statuscode == status_of(e.reason_spec()),
            resp.message@ == message_of(*e),
    {
        let statuscode = status_code(e.reason());
        let message = match e {
            SignDataErr::DbConn(_) => "Internal server error".to_owned(),
            SignDataErr::Model(model_err) => match model_err {
                ModelErr::AlreadyExists(_) => "Resource already exists".to_owned(),
                ModelErr::OtherDieselErr(_) => "Internal server error".to_owned(),
            },
            SignDataErr::B64DecodeBody(e) => joined("Invalid base64 field: ", decode_error_text(e).as_str()),
            SignDataErr::B64DecodePowProof(e) => joined("Invalid base64 field: ", decode_error_text(e).as_str()),
            SignDataErr::PowProofLength => "Invalid PoW proof: not a sequence of 32-bit words".to_owned(),
            SignDataErr::SerializeFieldsSigned(_) => "Internal server error".to_owned(),
            SignDataErr::PowRejected => "PoW proof didn't pass verification".to_owned(),
        };
        ErrResp { statuscode, message }
    }

    /// The answer to a rejection.
    pub fn from(r: &Rejected) -> (resp: Self)
        ensures
            resp.answer() == rejection_answer(*r),
    {
        match r {
            Rejected::NotFound => ErrResp::new(NOT_FOUND, "Not found"),
            Rejected::SignData(e) => ErrResp::from_sign_data_err(e),
            Rejected::BodyDeserialize(text) => {
                let message = joined("Bad Request: ", text.as_str());
                ErrResp { statuscode: BAD_REQUEST, message }
            },
            Rejected::MethodNotAllowed => ErrResp::from_status(METHOD_NOT_ALLOWED),
            Rejected::Unhandled => ErrResp::new(INTERNAL_SERVER_ERROR, "UNHANDLED_REJECTION"),
        }
    }
}

} // verus!
