//! The requests that a client sends while it logs in and the responses that
//! it reads, as far as the login looks at them.

use crate::value::{RpcValue, Wire};
use vstd::prelude::*;

verus! {

/// The error that a response carries in place of a result.
#[derive(Debug, PartialEq, Eq)]
pub struct RpcError {
    /// What went wrong, in the broker's words.
    pub message: String,
}

/// A request: the method that is called and the parameters it is called with.
#[derive(Debug, PartialEq, Eq)]
pub struct Request {
    pub method: String,
    pub params: Option<RpcValue>,
}

/// A response: the result of the call, or the error that took its place.
#[derive(Debug, PartialEq, Eq)]
pub struct Response {
    pub result: Option<RpcValue>,
    pub error: Option<RpcError>,
}

/// The mathematical content of a [`Request`].
pub struct RequestModel {
    pub method: Seq<char>,
    pub params: Option<Wire>,
}

/// The mathematical content of a [`Response`]; of its error, the message.
pub struct ResponseModel {
    pub result: Option<Wire>,
    pub error: Option<Seq<char>>,
}

impl View for Request {
    type V = RequestModel;

    open spec fn view(&self) -> RequestModel {
        RequestModel {
            method: self.method@,
            params: match self.params {
                Some(value) => Some(value@),
                None => None,
            },
        }
    }
}

impl View for Response {
    type V = ResponseModel;

    open spec fn view(&self) -> ResponseModel {
        ResponseModel {
            result: match self.result {
                Some(value) => Some(value@),
                None => None,
            },
            error: match self.error {
                Some(error) => Some(error.message@),
                None => None,
            },
        }
    }
}

impl ResponseModel {
    /// The response that carries neither a result nor an error.
    pub open spec fn empty() -> ResponseModel {
        ResponseModel { result: None, error: None }
    }
}

/// The content of a response that may be missing.
pub open spec fn response_model(response: Option<Response>) -> Option<ResponseModel> {
    match response {
        Some(response) => Some(response@),
        None => None,
    }
}

impl Response {
    /// A response that carries `result`.
    pub fn success(result: RpcValue) -> (response: Response)
        ensures
            response@ == (ResponseModel { result: Some(result@), error: None }),
    {
        Response { result: Some(result), error: None }
    }

    /// A response that carries an error with the given message.
    pub fn failure(message: String) -> (response: Response)
        ensures
            response@ == (ResponseModel { result: None, error: Some(message@) }),
    {
        Response { result: None, error: Some(RpcError { message }) }
    }
}

impl Default for Response {
    /// The response that carries neither a result nor an error.
    fn default() -> (response: Response)
        ensures
            response@ == ResponseModel::empty(),
    {
        Response { result: None, error: None }
    }
}

} // verus!
