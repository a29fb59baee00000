//! The executable codec: serialization output, parsing, escapes, integers,
//! arrays, and the envelope, checked on concrete values.

use shishutsukan::codec::{
    parse_api_message, parse_expense, parse_expense_list, parse_genre, parse_genre_list,
    serialize_expense, serialize_genre,
};
use shishutsukan::{Expense, Genre};

#[test]
fn test_expense_serialization() {
    let expense = Expense::new("2025-01-15".to_string(), "食費".to_string(), 1000);
    let json = serialize_expense(&expense);
    assert!(json.contains("2025-01-15"));
    assert!(json.contains("食費"));
    assert!(json.contains("1000"));
}

#[test]
fn test_genre_serialization() {
    let genre = Genre::new("娯楽費".to_string());
    let json = serialize_genre(&genre);
    assert!(json.contains("娯楽費"));
}

#[test]
fn test_expense_deserialization() {
    let json = r#"{"date":"2025-01-15","genre":"食費","amount":1000}"#;
    let expense = parse_expense(json).expect("Failed to deserialize");
    assert_eq!(expense.date, "2025-01-15");
    assert_eq!(expense.genre, "食費");
    assert_eq!(expense.amount, 1000);
}

#[test]
fn test_genre_deserialization() {
    let json = r#"{"name":"娯楽費"}"#;
    let genre = parse_genre(json).expect("Failed to deserialize");
    assert_eq!(genre.name, "娯楽費");
}

#[test]
fn test_expense_serialization_exact_text() {
    let expense = Expense::new("2025-01-15".to_string(), "食費".to_string(), 1000);
    assert_eq!(
        serialize_expense(&expense),
        r#"{"date":"2025-01-15","genre":"食費","amount":1000}"#
    );
}

#[test]
fn test_genre_serialization_exact_text() {
    let genre = Genre::new("娯楽費".to_string());
    assert_eq!(serialize_genre(&genre), r#"{"name":"娯楽費"}"#);
}

#[test]
fn test_expense_round_trip_plain() {
    let expense = Expense::new("2025-01-15".to_string(), "食費".to_string(), 1000);
    let back = parse_expense(&serialize_expense(&expense)).expect("round trip");
    assert_eq!(back, expense);
}

#[test]
fn test_expense_round_trip_escapes_and_extremes() {
    let date = "a\"b\\c\nd\te\r\u{8}\u{c}\u{1}\u{1f}".to_string();
    let genre = "枠\u{0}づけ /slash".to_string();
    for amount in [i32::MIN, -1, 0, 1, i32::MAX] {
        let expense = Expense::new(date.clone(), genre.clone(), amount);
        let back = parse_expense(&serialize_expense(&expense)).expect("round trip");
        assert_eq!(back, expense);
    }
}

#[test]
fn test_genre_round_trip_escapes() {
    for name in ["", "a", "娯楽費", "\"\\\n\t\u{2}", "snow\u{2603}man"] {
        let genre = Genre::new(name.to_string());
        let back = parse_genre(&serialize_genre(&genre)).expect("round trip");
        assert_eq!(back, genre);
    }
}

#[test]
fn test_serializer_agrees_with_reference_json_parser() {
    let expense = Expense::new(
        "2025-01-15".to_string(),
        "食費 \"quoted\" \\ line\nend".to_string(),
        -250,
    );
    let text = serialize_expense(&expense);
    let value: serde_json::Value = serde_json::from_str(&text).expect("valid JSON");
    assert_eq!(value["date"].as_str(), Some("2025-01-15"));
    assert_eq!(value["genre"].as_str(), Some("食費 \"quoted\" \\ line\nend"));
    assert_eq!(value["amount"].as_i64(), Some(-250));
}

#[test]
fn test_parse_expense_tolerates_whitespace() {
    let json = " {\n  \"date\" : \"2025-01-15\" ,\t\"genre\": \"食費\", \"amount\" :\r\n 1000 } ";
    let expense = parse_expense(json).expect("whitespace tolerated");
    assert_eq!(expense.date, "2025-01-15");
    assert_eq!(expense.genre, "食費");
    assert_eq!(expense.amount, 1000);
}

#[test]
fn test_parse_expense_rejects_malformed_bodies() {
    assert_eq!(parse_expense(""), None);
    assert_eq!(parse_expense("{}"), None);
    assert_eq!(parse_expense("not json"), None);
    // wrong field order
    assert_eq!(parse_expense(r#"{"genre":"a","date":"b","amount":1}"#), None);
    // trailing garbage
    assert_eq!(
        parse_expense(r#"{"date":"a","genre":"b","amount":1} x"#),
        None
    );
    // leading zero
    assert_eq!(parse_expense(r#"{"date":"a","genre":"b","amount":01}"#), None);
    // fractions are not integers
    assert_eq!(
        parse_expense(r#"{"date":"a","genre":"b","amount":1.5}"#),
        None
    );
    // out of 32-bit range
    assert_eq!(
        parse_expense(r#"{"date":"a","genre":"b","amount":2147483648}"#),
        None
    );
    // raw control character in a string
    assert_eq!(
        parse_expense("{\"date\":\"a\u{1}\",\"genre\":\"b\",\"amount\":1}"),
        None
    );
    // unknown escape
    assert_eq!(parse_expense(r#"{"date":"a\q","genre":"b","amount":1}"#), None);
}

#[test]
fn test_parse_expense_integer_edges() {
    let min = parse_expense(r#"{"date":"a","genre":"b","amount":-2147483648}"#).expect("min fits");
    assert_eq!(min.amount, i32::MIN);
    let max = parse_expense(r#"{"date":"a","genre":"b","amount":2147483647}"#).expect("max fits");
    assert_eq!(max.amount, i32::MAX);
    assert_eq!(
        parse_expense(r#"{"date":"a","genre":"b","amount":-2147483649}"#),
        None
    );
}

#[test]
fn test_parse_string_unicode_escapes() {
    let genre = parse_genre(r#"{"name":"\u98df\u8cbb"}"#).expect("BMP escapes");
    assert_eq!(genre.name, "食費");
    let genre = parse_genre(r#"{"name":"A\/\b"}"#).expect("ASCII escapes");
    assert_eq!(genre.name, "A/\u{8}");
    // a surrogate pair names one character beyond the Basic Multilingual Plane
    let genre = parse_genre(r#"{"name":"\uD83D\uDE00"}"#).expect("surrogate pair");
    assert_eq!(genre.name, "\u{1F600}");
    // a lone surrogate names no character
    assert_eq!(parse_genre(r#"{"name":"\uD800"}"#), None);
    assert_eq!(parse_genre(r#"{"name":"\uDC00"}"#), None);
    // a high surrogate followed by anything but a low one
    assert_eq!(parse_genre(r#"{"name":"\uD83D\u0041"}"#), None);
    assert_eq!(parse_genre(r#"{"name":"\uD83Dxxxxxx"}"#), None);
    // too few hex digits
    assert_eq!(parse_genre(r#"{"name":"\u00"}"#), None);
}

#[test]
fn test_parse_api_message_variants() {
    let m = parse_api_message(r#"{"message":"ok"}"#).expect("message only");
    assert_eq!(m.message.as_deref(), Some("ok"));
    assert_eq!(m.error, None);

    let m = parse_api_message(r#"{"error":"boom"}"#).expect("error only");
    assert_eq!(m.message, None);
    assert_eq!(m.error.as_deref(), Some("boom"));

    let m = parse_api_message(r#"{"message":"ok","error":"boom"}"#).expect("both");
    assert_eq!(m.message.as_deref(), Some("ok"));
    assert_eq!(m.error.as_deref(), Some("boom"));

    let m = parse_api_message("{}").expect("empty envelope");
    assert_eq!(m.message, None);
    assert_eq!(m.error, None);

    assert_eq!(parse_api_message(r#"{"unknown":"x"}"#), None);
}

#[test]
fn test_parse_expense_list_bodies() {
    let empty = parse_expense_list("[]").expect("empty array");
    assert_eq!(empty.len(), 0);
    let empty = parse_expense_list(" [ ] ").expect("empty array with whitespace");
    assert_eq!(empty.len(), 0);

    let body = r#"[{"id":1,"date":"2025-01-15","genre":"食費","amount":1000},
                   {"id":2,"date":"2025-01-16","genre":"交通費","amount":500}]"#;
    let list = parse_expense_list(body).expect("two records");
    assert_eq!(list.len(), 2);
    assert_eq!(list[0].id, 1);
    assert_eq!(list[0].date, "2025-01-15");
    assert_eq!(list[0].genre, "食費");
    assert_eq!(list[0].amount, 1000);
    assert_eq!(list[1].id, 2);
    assert_eq!(list[1].amount, 500);

    // a trailing comma names no record
    assert_eq!(
        parse_expense_list(r#"[{"id":1,"date":"a","genre":"b","amount":1},]"#),
        None
    );
}

#[test]
fn test_parse_genre_list_bodies() {
    let empty = parse_genre_list("[]").expect("empty array");
    assert_eq!(empty.len(), 0);

    let body = r#"[{"id":7,"name":"食費","created_at":"2025-01-01T00:00:00"}]"#;
    let list = parse_genre_list(body).expect("one record");
    assert_eq!(list.len(), 1);
    assert_eq!(list[0].id, 7);
    assert_eq!(list[0].name, "食費");
    assert_eq!(list[0].created_at, "2025-01-01T00:00:00");

    assert_eq!(parse_genre_list(r#"[{"name":"x"}]"#), None);
}
