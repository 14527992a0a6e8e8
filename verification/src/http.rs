//! What a transport over HTTP decides: how a request is addressed, which
//! requests may reach a dispatcher, and what a status means for the call.

use crate::client::ResponseError;
use crate::text::same_text;
use vstd::prelude::*;

verus! {

/// The method that requests use where none is chosen.
pub open spec fn default_method() -> Seq<char> {
    seq!['P', 'O', 'S', 'T']
}

/// How a transport over HTTP addresses the service
#[derive(Debug, Clone, PartialEq, Eq)]
pub struct Reqwest {
    /// The url to access the service at
    pub url: String,
    /// The HTTP method to use
    pub method: String,
}

impl Reqwest {
    /// Create a new transport using the given URL and method; the default
    /// method is POST
    pub fn new(url: String, method: Option<String>) -> (transport: Self)
        ensures
            transport.url@ == url@,
            transport.method@ == match method {
                Some(chosen) => chosen@,
                None => default_method(),
            },
    {
        let method = match method {
            Some(chosen) => chosen,
            None => {
                proof {
                    reveal_strlit("POST");
                }
                let post = String::from_str("POST");
                assert(post@ =~= default_method());
                post
            },
        };
        Reqwest { url, method }
    }
}

/// What a status says of a call.
#[derive(Debug, Clone, Copy, PartialEq, Eq, Structural)]
pub enum StatusClass {
    /// The call was accepted: 200 to 299
    Success,
    /// The request was rejected: 400 to 499
    ClientError,
    /// The server failed: 500 to 599
    ServerError,
    /// Anything else
    Other,
}

/// The class of a status.
pub open spec fn class_of(status: u16) -> StatusClass {
    if 200 <= status <= 299 {
        StatusClass::Success
    } else if 400 <= status <= 499 {
        StatusClass::ClientError
    } else if 500 <= status <= 599 {
        StatusClass::ServerError
    } else {
        StatusClass::Other
    }
}

/// Says what a status means for a call.
pub fn classify_status(status: u16) -> (class: StatusClass)
    ensures
        class == class_of(status),
{
    if 200 <= status && status <= 299 {
        StatusClass::Success
    } else if 400 <= status && status <= 499 {
        StatusClass::ClientError
    } else if 500 <= status && status <= 599 {
        StatusClass::ServerError
    } else {
        StatusClass::Other
    }
}

/// What a reply over HTTP means for the call: the body of an accepted call,
/// else the rejection with the reply's text as its detail.
pub open spec fn reply_of(status: u16, body: Vec<u8>, text: String) -> Result<
    Vec<u8>,
    ResponseError,
> {
    match class_of(status) {
        StatusClass::Success => Ok(body),
        StatusClass::ClientError => Err(ResponseError::BadRequest(text)),
        StatusClass::ServerError => Err(ResponseError::InternalServerError(text)),
        StatusClass::Other => Err(ResponseError::Unexpected),
    }
}

/// Turns a reply over HTTP into the outcome of the call. A well-formed
/// rejection is no failure of the transport.
pub fn response_from_status(status: u16, body: Vec<u8>, text: String) -> (outcome: Result<
    Vec<u8>,
    ResponseError,
>)
    ensures
        outcome == reply_of(status, body, text),
{
    match classify_status(status) {
        StatusClass::Success => Ok(body),
        StatusClass::ClientError => Err(ResponseError::BadRequest(text)),
        StatusClass::ServerError => Err(ResponseError::InternalServerError(text)),
        StatusClass::Other => Err(ResponseError::Unexpected),
    }
}

/// Whether one of the methods before `upto` is the given one.
pub open spec fn allows(allowed: Seq<String>, method: Seq<char>, upto: int) -> bool {
    exists|i: int| 0 <= i < upto && (#[trigger] allowed[i])@ == method
}

/// Whether a request with the given HTTP method may reach the dispatcher:
/// only the listed methods may; any other is to be answered as not found.
pub fn method_allowed(allowed: &Vec<String>, method: &str) -> (may: bool)
    ensures
        may == allows(allowed@, method@, allowed@.len() as int),
{
    let mut i: usize = 0;
    while i < allowed.len()
        invariant
            i <= allowed@.len(),
            !allows(allowed@, method@, i as int),
        decreases allowed@.len() - i,
    {
        if same_text(allowed[i].as_str(), method) {
            return true;
        }
        i += 1;
    }
    false
}

} // verus!
