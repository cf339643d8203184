//! Laws of call logging.

use vstd::prelude::*;

use crate::method_logger::{CallLog, MethodLoggerMiddleware, Request, Response};

verus! {

/// A call is logged by its method and by whether it failed, and is answered as it was without
/// logging. The service that answers is the one that was wrapped.
pub proof fn calls_are_logged_by_method_and_outcome<S>(
    service: S,
    logger: MethodLoggerMiddleware<S>,
    wrapped: &S,
    request: Request,
    response: Response,
    log: CallLog,
    answer: Response,
)
    requires
        call_ensures(MethodLoggerMiddleware::<S>::new, (service,), logger),
        call_ensures(MethodLoggerMiddleware::<S>::service, (&logger,), wrapped),
        call_ensures(
            MethodLoggerMiddleware::<S>::answered,
            (&logger, &request, response),
            (log, answer),
        ),
    ensures
        *wrapped == service,
        log.method@ == request.method@,
        log.is_error == response.is_error,
        answer == response,
{
    assert(log@.method == log.method@);
    assert(log@.is_error == log.is_error);
}

/// Neither parameters nor answers reach the log: two calls of one method with one outcome leave
/// the same entry, whatever they carried and whatever answered them.
pub proof fn secrets_do_not_reach_the_log<S>(
    logger_a: MethodLoggerMiddleware<S>,
    logger_b: MethodLoggerMiddleware<S>,
    request_a: Request,
    request_b: Request,
    response_a: Response,
    response_b: Response,
    log_a: CallLog,
    log_b: CallLog,
)
    requires
        request_a.method@ == request_b.method@,
        response_a.is_error == response_b.is_error,
        call_ensures(
            MethodLoggerMiddleware::<S>::answered,
            (&logger_a, &request_a, response_a),
            (log_a, response_a),
        ),
        call_ensures(
            MethodLoggerMiddleware::<S>::answered,
            (&logger_b, &request_b, response_b),
            (log_b, response_b),
        ),
    ensures
        log_a.method@ == log_b.method@,
        log_a.is_error == log_b.is_error,
{
    assert(log_a@.method == log_b@.method);
}

} // verus!
