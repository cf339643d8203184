//! Call logging for the JSON-RPC server.

use vstd::prelude::*;

verus! {

/// A JSON-RPC call.
#[derive(Debug, PartialEq, Eq)]
pub struct Request {
    pub method: String,
    /// The parameters, as they were sent. They can carry secrets.
    pub params: Option<String>,
}

/// The answer to a JSON-RPC call.
#[derive(Debug, PartialEq, Eq)]
pub struct Response {
    /// The answer as it is sent. It can carry secrets.
    pub body: String,
    pub is_error: bool,
}

/// The log entry of a call.
#[derive(Debug, PartialEq, Eq)]
pub struct CallLog {
    pub method: String,
    pub is_error: bool,
}

/// What a [`CallLog`] says.
pub ghost struct CallLogView {
    pub method: Seq<char>,
    pub is_error: bool,
}

impl View for CallLog {
    type V = CallLogView;

    open spec fn view(&self) -> CallLogView {
        CallLogView { method: self.method@, is_error: self.is_error }
    }
}

/// What is logged of a call and its answer.
pub open spec fn logged(request: Request, response: Response) -> CallLogView {
    CallLogView { method: request.method@, is_error: response.is_error }
}

/// JSON-RPC middleware that logs each call by method name only.
///
/// This deliberately never logs call parameters or responses: they can carry
/// secrets (wallet passphrases, exported or imported keys) and private
/// transaction data, which must not end up in log output at any verbosity.
#[derive(Clone)]
pub struct MethodLoggerMiddleware<S> {
    service: S,
}

impl<S> MethodLoggerMiddleware<S> {
    /// The service whose calls are logged.
    pub closed spec fn wrapped(self) -> S {
        self.service
    }

    /// Create a new `MethodLoggerMiddleware` with the given `service`.
    pub fn new(service: S) -> (r: Self)
        ensures
            r.wrapped() == service,
    {
        MethodLoggerMiddleware { service }
    }

    /// The service whose calls are logged.
    pub fn service(&self) -> (r: &S)
        ensures
            *r == self.wrapped(),
    {
        &self.service
    }

    /// Logs an answered call: the entry to write, and the answer to hand on as it is.
    pub fn answered(&self, request: &Request, response: Response) -> (r: (CallLog, Response))
        ensures
            r.0@ == logged(*request, response),
            r.1 == response,
    {
        (CallLog { method: request.method.clone(), is_error: response.is_error }, response)
    }
}

/// Parameters and answers never reach the log: calls of one method with one outcome leave the
/// same entry, whatever they carried.
pub proof fn log_entries_hide_parameters_and_answers(
    request_a: Request,
    response_a: Response,
    request_b: Request,
    response_b: Response,
)
    requires
        request_a.method@ == request_b.method@,
        response_a.is_error == response_b.is_error,
    ensures
        logged(request_a, response_a) == logged(request_b, response_b),
{
}

} // verus!
