//! The response-judging rules and the request URLs, on concrete exchanges.

use shishutsukan::codec::serialize_expense;
use shishutsukan::protocol::{
    decode_expense_list_response, decode_genre_list_response, decode_write_response,
    expense_item_url, expenses_url, genre_item_url, genres_url,
};
use shishutsukan::{Expense, ShishutsukanError};

#[test]
fn test_add_expense_success_exchange() {
    // the whole client-side path of adding an expense against a server
    // that answers 200 with a success envelope
    let expense = Expense::new("2025-01-15".to_string(), "食費".to_string(), 1000);
    let url = expenses_url("http://localhost:8000");
    assert_eq!(url, "http://localhost:8000/expenses");
    let body = serialize_expense(&expense);
    assert_eq!(body, r#"{"date":"2025-01-15","genre":"食費","amount":1000}"#);
    let result = decode_write_response(200, r#"{"message":"ok"}"#).expect("success");
    assert_eq!(result.message.as_deref(), Some("ok"));
    assert_eq!(result.error, None);
}

#[test]
fn test_delete_genre_in_use_reports_server_error() {
    // deleting genre 7 against a server that answers 200 but reports
    // "genre in use" in the body
    let url = genre_item_url("http://localhost:8000", 7);
    assert_eq!(url, "http://localhost:8000/genres/7");
    let result = decode_write_response(200, r#"{"error":"genre in use"}"#);
    assert_eq!(
        result,
        Err(ShishutsukanError::ServerError("genre in use".to_string()))
    );
}

#[test]
fn test_add_genre_http_failure_ignores_body() {
    // adding a genre against a server that answers 500: the status decides,
    // whatever the body holds
    for body in ["", "{}", r#"{"message":"ok"}"#, "garbage"] {
        let result = decode_write_response(500, body);
        assert_eq!(result, Err(ShishutsukanError::HttpError(500)));
    }
}

#[test]
fn test_status_range_edges() {
    assert!(decode_write_response(200, "{}").is_ok());
    assert!(decode_write_response(299, "{}").is_ok());
    assert_eq!(
        decode_write_response(199, "{}"),
        Err(ShishutsukanError::HttpError(199))
    );
    assert_eq!(
        decode_write_response(300, "{}"),
        Err(ShishutsukanError::HttpError(300))
    );
    assert_eq!(
        decode_expense_list_response(404, "[]"),
        Err(ShishutsukanError::HttpError(404))
    );
    assert_eq!(
        decode_genre_list_response(503, "[]"),
        Err(ShishutsukanError::HttpError(503))
    );
}

#[test]
fn test_write_response_decoding_failure() {
    let result = decode_write_response(200, "not json");
    assert!(matches!(result, Err(ShishutsukanError::DecodingError(_))));
    let result = decode_write_response(200, r#"["array","not","envelope"]"#);
    assert!(matches!(result, Err(ShishutsukanError::DecodingError(_))));
}

#[test]
fn test_write_response_empty_error_still_fails() {
    // an error field that is present but empty still counts as a failure
    let result = decode_write_response(200, r#"{"error":""}"#);
    assert_eq!(result, Err(ShishutsukanError::ServerError(String::new())));
}

#[test]
fn test_list_response_success_and_decoding_failure() {
    let body = r#"[{"id":3,"date":"2025-01-20","genre":"交通費","amount":500}]"#;
    let list = decode_expense_list_response(200, body).expect("list parses");
    assert_eq!(list.len(), 1);
    assert_eq!(list[0].id, 3);

    let result = decode_expense_list_response(200, r#"{"message":"ok"}"#);
    assert!(matches!(result, Err(ShishutsukanError::DecodingError(_))));

    let body = r#"[{"id":9,"name":"娯楽費","created_at":"2025-02-02"}]"#;
    let genres = decode_genre_list_response(204, body).expect("list parses");
    assert_eq!(genres[0].name, "娯楽費");

    let result = decode_genre_list_response(200, "nope");
    assert!(matches!(result, Err(ShishutsukanError::DecodingError(_))));
}

#[test]
fn test_request_urls() {
    assert_eq!(genres_url("http://h:1"), "http://h:1/genres");
    assert_eq!(expenses_url(""), "/expenses");
    assert_eq!(expense_item_url("http://h:1", 42), "http://h:1/expenses/42");
    assert_eq!(expense_item_url("b", 0), "b/expenses/0");
    assert_eq!(genre_item_url("b", -15), "b/genres/-15");
    assert_eq!(
        expense_item_url("b", i32::MIN),
        "b/expenses/-2147483648"
    );
}
