use json_log_viewer::record::{parse_line, Record};
use json_log_viewer::row::{
    classify, context_of, flatten, pad, project, text_or, Severity, LEVEL_WIDTH, MESSAGE_WIDTH,
};
use json_log_viewer::title::{push_decimal, title};

fn record(line: &str) -> Record {
    match parse_line(line) {
        Ok(record) => record,
        Err(failure) => panic!("{}", failure.message),
    }
}

#[test]
fn pad_fills_with_spaces_to_the_width() {
    assert_eq!(pad("INFO", 9), "INFO     ");
    assert_eq!(pad("", 3), "   ");
    assert_eq!(pad("abc", 3), "abc");
}

#[test]
fn pad_leaves_a_longer_text_alone() {
    assert_eq!(pad("EMERGENCY!", 9), "EMERGENCY!");
    assert_eq!(pad("x", 0), "x");
}

#[test]
fn pad_counts_characters_not_bytes() {
    assert_eq!(pad("héé", 5), "héé  ");
    assert_eq!(pad("日本語", 4), "日本語 ");
}

#[test]
fn classify_knows_the_level_names() {
    assert_eq!(classify("DEBUG"), Severity::Debug);
    assert_eq!(classify("INFO"), Severity::Info);
    assert_eq!(classify("NOTICE"), Severity::Notice);
    assert_eq!(classify("WARNING"), Severity::Warning);
    assert_eq!(classify("ERROR"), Severity::Error);
    assert_eq!(classify("CRITICAL"), Severity::Critical);
}

#[test]
fn classify_takes_anything_else_as_other() {
    assert_eq!(classify("[NONE]"), Severity::Other);
    assert_eq!(classify("info"), Severity::Other);
    assert_eq!(classify("ERROR "), Severity::Other);
    assert_eq!(classify(""), Severity::Other);
}

#[test]
fn text_or_reads_a_string_field() {
    let rec = record(r#"{"message":"hello","count":3}"#);
    assert_eq!(text_or(&rec, "message", "none"), "hello");
}

#[test]
fn text_or_falls_back_when_absent_or_not_a_string() {
    let rec = record(r#"{"message":"hello","count":3,"gone":null}"#);
    assert_eq!(text_or(&rec, "missing", "none"), "none");
    assert_eq!(text_or(&rec, "count", "none"), "none");
    assert_eq!(text_or(&rec, "gone", ""), "");
}

#[test]
fn flatten_joins_pairs_in_the_order_of_the_object() {
    let rec = record(r#"{"path":"/var","free":0,"ok":true,"tags":["a","b"],"sub":{"k":null}}"#);
    assert_eq!(
        flatten(&rec),
        r#"free = 0, ok = true, path = "/var", sub = {"k":null}, tags = ["a","b"]"#
    );
}

#[test]
fn flatten_of_one_pair_has_no_separator() {
    assert_eq!(flatten(&record(r#"{"user":"ann"}"#)), r#"user = "ann""#);
}

#[test]
fn flatten_of_nothing_is_empty() {
    assert_eq!(flatten(&record("{}")), "");
}

#[test]
fn context_of_reads_the_context_object() {
    let rec = record(r#"{"context":{"b":2,"a":1},"b":3}"#);
    assert_eq!(context_of(&rec), "a = 1, b = 2");
}

#[test]
fn context_of_is_empty_without_a_context_object() {
    assert_eq!(context_of(&record(r#"{"message":"m"}"#)), "");
    assert_eq!(context_of(&record(r#"{"context":"text"}"#)), "");
    assert_eq!(context_of(&record(r#"{"context":[1,2]}"#)), "");
    assert_eq!(context_of(&record(r#"{"context":null}"#)), "");
}

#[test]
fn project_lays_out_a_full_record() {
    let rec = record(
        r#"{"level_name":"ERROR","datetime":"2024-01-01T00:00:00","message":"disk full","context":{"path":"/var","free":0}}"#,
    );
    let row = project(&rec);
    assert_eq!(row.datetime, "2024-01-01T00:00:00");
    assert_eq!(row.level, "ERROR    ");
    assert_eq!(row.severity, Severity::Error);
    assert_eq!(row.message, "disk full                       ");
    assert_eq!(row.context, r#"free = 0, path = "/var""#);
    assert_eq!(
        row.line(),
        r#"2024-01-01T00:00:00 ERROR     disk full                        free = 0, path = "/var""#
    );
}

#[test]
fn project_falls_back_on_an_empty_record() {
    let row = project(&record("{}"));
    assert_eq!(row.datetime, "--------------------------------");
    assert_eq!(row.level, "[NONE]   ");
    assert_eq!(row.severity, Severity::Other);
    assert_eq!(row.message, "                                ");
    assert_eq!(row.context, "");
    assert_eq!(row.level.chars().count(), LEVEL_WIDTH);
    assert_eq!(row.message.chars().count(), MESSAGE_WIDTH);
}

#[test]
fn project_falls_back_on_fields_of_the_wrong_type() {
    let row = project(&record(
        r#"{"level_name":5,"datetime":{"a":1},"message":null,"context":[1,2]}"#,
    ));
    assert_eq!(row.datetime, "--------------------------------");
    assert_eq!(row.level, "[NONE]   ");
    assert_eq!(row.severity, Severity::Other);
    assert_eq!(row.message, "                                ");
    assert_eq!(row.context, "");
}

#[test]
fn project_keeps_a_long_message_whole() {
    let row = project(&record(
        r#"{"level_name":"WARNING","message":"a message that is longer than the column is wide"}"#,
    ));
    assert_eq!(row.level, "WARNING  ");
    assert_eq!(row.severity, Severity::Warning);
    assert_eq!(row.message, "a message that is longer than the column is wide");
}

#[test]
fn project_gives_the_same_row_each_time() {
    let rec = record(r#"{"level_name":"INFO","message":"again","context":{"n":1}}"#);
    let before = rec.clone();
    let first = project(&rec);
    let second = project(&rec);
    assert_eq!(first.line(), second.line());
    assert_eq!(first.severity, second.severity);
    assert_eq!(rec, before);
}

#[test]
fn push_decimal_writes_every_digit() {
    let mut text = String::from("n=");
    push_decimal(&mut text, 0);
    assert_eq!(text, "n=0");
    let mut text = String::new();
    push_decimal(&mut text, 1234567890);
    assert_eq!(text, "1234567890");
    let mut text = String::new();
    push_decimal(&mut text, 10);
    assert_eq!(text, "10");
    let mut text = String::new();
    push_decimal(&mut text, u128::MAX);
    assert_eq!(text, "340282366920938463463374607431768211455");
}

#[test]
fn title_shows_position_and_total() {
    assert_eq!(title("app.log", Some(1), 3), " [ app.log ] [ 2 / 3 ] ");
    assert_eq!(title("-", Some(0), 1), " [ - ] [ 1 / 1 ] ");
    assert_eq!(title("big", Some(99), 12345), " [ big ] [ 100 / 12345 ] ");
}

#[test]
fn title_without_a_selection_shows_the_first_position() {
    assert_eq!(title("app.log", None, 0), " [ app.log ] [ 1 / 0 ] ");
}

#[test]
fn title_position_does_not_overflow() {
    let expected = format!(" [ x ] [ {} / {} ] ", usize::MAX as u128 + 1, usize::MAX);
    assert_eq!(title("x", Some(usize::MAX), usize::MAX), expected);
}
