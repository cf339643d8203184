use zallet_core::method_logger::{CallLog, MethodLoggerMiddleware, Request, Response};

fn request(params: &str) -> Request {
    Request { method: "walletpassphrase".to_string(), params: Some(params.to_string()) }
}

fn response(body: &str, is_error: bool) -> Response {
    Response { body: body.to_string(), is_error }
}

#[test]
fn calls_are_logged_by_method_name_only() {
    let logger = MethodLoggerMiddleware::new("service");
    assert_eq!(*logger.service(), "service");
    let (entry, answer) = logger.answered(&request("hunter2"), response("null", false));
    assert_eq!(entry, CallLog { method: "walletpassphrase".to_string(), is_error: false });
    assert_eq!(answer, response("null", false));
}

#[test]
fn secrets_make_no_difference_to_the_log() {
    let logger = MethodLoggerMiddleware::new(());
    let (first, _) = logger.answered(&request("hunter2"), response("wrong: hunter2", true));
    let (second, _) = logger.answered(&request("correct horse"), response("", true));
    assert_eq!(first, second);
    assert!(first.is_error);
}
