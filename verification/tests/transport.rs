use indexnow_api::http::{HttpClient, HttpReply};
use indexnow_api::GoogleApiError;

fn connection_text(result: Result<(), GoogleApiError>) -> String {
    match result {
        Err(GoogleApiError::Connection(text)) => text,
        Err(GoogleApiError::Status(code)) => panic!("status {} where a connection error was expected", code),
        Ok(()) => panic!("success where a connection error was expected"),
    }
}

#[test]
fn status_200_is_success_whatever_the_body() {
    for body in ["", "ok", "{\"error\":\"ignored\"}", "<html>500 Internal Server Error</html>"] {
        let result = HttpClient::outcome(HttpReply::Answered { status: 200, body: body.to_string() });
        assert!(result.is_ok());
    }
}

#[test]
fn other_statuses_fail_with_the_body_as_message() {
    for status in [0u16, 100, 199, 201, 202, 204, 301, 400, 403, 404, 422, 429, 500, 503, 999, u16::MAX] {
        let body = format!("answer to {}", status);
        let result = HttpClient::outcome(HttpReply::Answered { status, body: body.clone() });
        assert_eq!(connection_text(result), body);
    }
}

#[test]
fn refusal_with_an_empty_body_has_an_empty_message() {
    let result = HttpClient::outcome(HttpReply::Answered { status: 403, body: String::new() });
    assert_eq!(connection_text(result), "");
}

#[test]
fn failed_exchange_reports_the_description() {
    let description = "error sending request: connection refused";
    let result = HttpClient::outcome(HttpReply::Failed(description.to_string()));
    assert_eq!(connection_text(result), description);
}

#[test]
fn failure_message_reads_the_same_through_to_string() {
    let result = HttpClient::outcome(HttpReply::Answered { status: 400, body: "Invalid format".to_string() });
    match result {
        Err(error) => assert_eq!(error.to_string(), "Invalid format"),
        Ok(()) => panic!("a refusal was judged a success"),
    }
}

#[test]
fn only_200_is_accepted() {
    for status in 0..=u16::MAX {
        assert_eq!(HttpClient::accepts(status), status == 200);
    }
}
