use elastask::decimal::{parse_u32, same_text};
use elastask::document::{digits_are_short, read_json, read_text, MAX_DIGIT_RUN};
use elastask::task::{ParseError, Schedule, Task, TaskFields};
use elastask::timestamp::{Timestamp, EARLIEST_SECONDS, LATEST_SECONDS};

const HIT: &str = r#"{
    "_id": "task:1",
    "_source": {
        "task": {
            "retryAt": null,
            "runAt": "2020-01-01T01:00:00.250+01:00",
            "startedAt": "yesterday",
            "scheduledAt": "2020-01-01T00:00:00Z",
            "params": "{\"a\":1}",
            "ownerId": "node-7",
            "schedule": { "interval": "1m" },
            "taskType": "report",
            "scope": ["alerting"],
            "traceparent": "",
            "state": "{}",
            "attempts": 2,
            "status": "running"
        }
    }
}"#;

fn hit_with_attempts(attempts: &str) -> json::JsonValue {
    let text = format!(
        r#"{{"_id":"t","_source":{{"task":{{"attempts":{},"status":"idle","params":"{{}}","state":"{{}}","scope":[]}}}}}}"#,
        attempts
    );
    json::parse(&text).unwrap()
}

#[test]
fn parse_reads_every_field_of_a_hit() {
    let task = Task::parse(&json::parse(HIT).unwrap()).unwrap();
    assert_eq!(task.id, "task:1");
    assert_eq!(task.attempts, 2);
    assert!(task.retry_at.is_none());
    let run_at = task.run_at.unwrap();
    assert_eq!(run_at.timestamp(), 1_577_836_800);
    assert_eq!(run_at.timestamp_millis(), 1_577_836_800_250);
    assert_eq!(task.scheduled_at.unwrap().timestamp(), 1_577_836_800);
    assert_eq!(task.params, r#"{"a":1}"#);
    assert_eq!(task.owner_id, "node-7");
    assert_eq!(task.schedule.interval, "1m");
    assert_eq!(task.task_type, "report");
    assert_eq!(task.scope, r#"["alerting"]"#);
    assert_eq!(task.traceparent, "");
    assert_eq!(task.state, "{}");
    assert_eq!(task.status, "running");
}

#[test]
fn malformed_and_missing_times_count_as_absent() {
    let task = Task::parse(&json::parse(HIT).unwrap()).unwrap();
    assert!(task.started_at.is_none());
    assert!(task.retry_at.is_none());
}

#[test]
fn scheduled_at_is_read_as_the_claim_writes_it() {
    let text = r#"{"_id":"t1","_source":{"task":{"status":"claiming","ownerId":"a","attempts":1,"scheduledAt":"2026-01-01T00:00:00Z"}}}"#;
    let task = Task::parse(&json::parse(text).unwrap()).unwrap();
    assert_eq!(task.get_id(), "t1");
    assert_eq!(task.attempts, 1);
    assert_eq!(task.get_owner(), Some("a".to_string()));
    let scheduled_at = task.scheduled_at.unwrap();
    assert_eq!(scheduled_at.timestamp(), 1_767_225_600);
    assert_eq!(scheduled_at.to_rfc3339(), "2026-01-01T00:00:00+00:00");
    let text = r#"{"_id":"t","_source":{"task":{"attempts":0,"scheduledAT":"2020-01-01T00:00:00Z"}}}"#;
    let task = Task::parse(&json::parse(text).unwrap()).unwrap();
    assert!(task.scheduled_at.is_none());
}

#[test]
fn every_time_of_a_hit_is_read() {
    let text = r#"{"_id":"t","_source":{"task":{"attempts":0,"retryAt":"2020-01-01T00:00:01Z","runAt":"2020-01-01T00:00:02Z","startedAt":"2020-01-01T00:00:03Z","scheduledAt":"2020-01-01T00:00:04Z"}}}"#;
    let task = Task::parse(&json::parse(text).unwrap()).unwrap();
    assert_eq!(task.retry_at.unwrap().timestamp(), 1_577_836_801);
    assert_eq!(task.run_at.unwrap().timestamp(), 1_577_836_802);
    assert_eq!(task.started_at.unwrap().timestamp(), 1_577_836_803);
    assert_eq!(task.scheduled_at.unwrap().timestamp(), 1_577_836_804);
    let text = r#"{"_id":"t","_source":{"task":{"attempts":0,"retryAt":7,"runAt":"soon","startedAt":null,"scheduledAt":"2020-02-30T00:00:00Z"}}}"#;
    let task = Task::parse(&json::parse(text).unwrap()).unwrap();
    assert!(task.retry_at.is_none());
    assert!(task.run_at.is_none());
    assert!(task.started_at.is_none());
    assert!(task.scheduled_at.is_none());
    assert_eq!(task.attempts, 0);
}

#[test]
fn missing_members_read_as_null() {
    let task = Task::parse(&hit_with_attempts("0")).unwrap();
    assert_eq!(task.owner_id, "null");
    assert_eq!(task.task_type, "null");
    assert_eq!(task.schedule.interval, "null");
    assert_eq!(task.scope, "[]");
}

#[test]
fn fields_are_the_texts_of_the_hit() {
    let fields = TaskFields::read(&json::parse(HIT).unwrap());
    assert_eq!(fields.id, "task:1");
    assert_eq!(fields.attempts, "2");
    assert_eq!(fields.retry_at, "null");
    assert_eq!(fields.run_at, "2020-01-01T01:00:00.250+01:00");
    assert_eq!(fields.started_at, "yesterday");
    assert_eq!(fields.scheduled_at, "2020-01-01T00:00:00Z");
    assert_eq!(fields.schedule.interval, "1m");
    assert_eq!(fields.status, "running");
}

#[test]
fn read_text_gives_strings_bare_and_other_values_as_json() {
    let value = json::parse(r#"{"s":"a \"b\"","n":12,"b":true,"o":{"k":[1,2]},"z":null}"#).unwrap();
    assert_eq!(read_text(&value, "s"), "a \"b\"");
    assert_eq!(read_text(&value, "n"), "12");
    assert_eq!(read_text(&value, "b"), "true");
    assert_eq!(read_text(&value, "o"), r#"{"k":[1,2]}"#);
    assert_eq!(read_text(&value, "z"), "null");
    assert_eq!(read_text(&value, "missing"), "null");
}

#[test]
fn schedule_is_read_from_its_interval() {
    let schedule = Schedule::parse(&json::parse(r#"{"interval":"5m"}"#).unwrap());
    assert_eq!(schedule.interval, "5m");
}

#[test]
fn task_without_attempts_is_no_task() {
    let text = r#"{"_id":"t","_source":{"task":{"status":"idle"}}}"#;
    assert_eq!(Task::parse(&json::parse(text).unwrap()).unwrap_err(), ParseError::MissingAttempts);
    assert_eq!(Task::parse(&hit_with_attempts("null")).unwrap_err(), ParseError::MissingAttempts);
    assert_eq!(Task::parse(&json::parse("{}").unwrap()).unwrap_err(), ParseError::MissingAttempts);
}

#[test]
fn task_with_attempts_that_are_no_u32_is_no_task() {
    for attempts in ["-1", "2.5", "\"many\"", "4294967296", "true", "[]", "\"\"", "\" 3\""] {
        assert_eq!(
            Task::parse(&hit_with_attempts(attempts)).unwrap_err(),
            ParseError::InvalidAttempts,
            "attempts {}",
            attempts
        );
    }
}

#[test]
fn attempts_are_read_from_numbers_and_from_texts() {
    assert_eq!(Task::parse(&hit_with_attempts("0")).unwrap().attempts, 0);
    assert_eq!(Task::parse(&hit_with_attempts("4294967295")).unwrap().attempts, u32::MAX);
    assert_eq!(Task::parse(&hit_with_attempts("\"7\"")).unwrap().attempts, 7);
    assert_eq!(Task::parse(&hit_with_attempts("\"+3\"")).unwrap().attempts, 3);
    assert_eq!(Task::parse(&hit_with_attempts("\"007\"")).unwrap().attempts, 7);
}

#[test]
fn parse_u32_agrees_with_the_standard_library() {
    let samples = [
        "", "+", "-", "0", "+0", "-0", "7", "42", "+42", "++42", "4 2", " 42", "42 ", "0042",
        "4294967295", "4294967296", "+4294967295", "42949672950", "99999999999999999999999",
        "00000000000000000000000000001", "1e3", "0x10", "1_000", "12a", "a12", "١٢", "null",
        "3.0", "+-1",
    ];
    for sample in samples {
        assert_eq!(parse_u32(sample), sample.parse::<u32>().ok(), "text {:?}", sample);
    }
    for number in [0u32, 1, 9, 10, 99, 100, 65_535, 4_294_967_294, u32::MAX] {
        assert_eq!(parse_u32(&number.to_string()), Some(number));
    }
}

#[test]
fn same_text_compares_by_content() {
    assert!(same_text("idle", "idle"));
    assert!(same_text("", ""));
    assert!(!same_text("idle", "Idle"));
    assert!(!same_text("idle", "idle "));
    assert!(!same_text("é", "e"));
}

#[test]
fn stringify_writes_the_task_for_a_node() {
    let task = Task::parse(&json::parse(HIT).unwrap()).unwrap();
    let expected = concat_parts(&[
        r#"{"id":"task:1","retryAt":"null","runAt":"2020-01-01T01:00:00.250+01:00","#,
        r#""startedAt":"null","scheduledAt":"2020-01-01T00:00:00+00:00","params":{"a":1},"state":{},"#,
        r#""scope":["alerting"],"ownerId":"node-7","taskType":"report","traceparent":"","#,
        r#""attempts":2,"status":"running","schedule":{"interval":"1m"}}"#,
    ]);
    assert_eq!(task.stringify(), expected);
}

fn concat_parts(parts: &[&str]) -> String {
    let mut whole = String::new();
    for part in parts {
        whole.push_str(part);
    }
    whole
}

#[test]
fn stringify_carries_texts_that_are_no_json_as_they_are() {
    let text = r#"{"_id":"t","_source":{"task":{"attempts":0,"params":"hello","state":"{","scope":""}}}"#;
    let task = Task::parse(&json::parse(text).unwrap()).unwrap();
    assert_eq!(task.params, "hello");
    let written = json::parse(&task.stringify()).unwrap();
    assert!(written["params"].is_string());
    assert_eq!(written["params"].to_string(), "hello");
    assert_eq!(written["state"].to_string(), "{");
    assert_eq!(written["scope"].to_string(), "");
    assert!(task.stringify().contains(r#""params":"hello","state":"{","scope":"","#));
}

#[test]
fn stringify_carries_json_texts_as_json() {
    let mut task = Task::parse(&json::parse(HIT).unwrap()).unwrap();
    task.params = r#"{"deep":{"list":[1,"two",null]}}"#.to_string();
    task.state = "12".to_string();
    task.scope = "\"quoted\"".to_string();
    let text = task.stringify();
    assert!(
        text.contains(r#""params":{"deep":{"list":[1,"two",null]}},"state":12,"scope":"quoted","#),
        "{}",
        text
    );
}

#[test]
fn stringify_carries_a_text_with_too_many_digits_as_it_is() {
    let mut task = Task::parse(&json::parse(HIT).unwrap()).unwrap();
    let digits = "7".repeat(MAX_DIGIT_RUN + 1);
    task.params = digits.clone();
    let written = json::parse(&task.stringify().replace(&digits, "many")).unwrap();
    assert!(written["params"].is_string());
    assert_eq!(written["params"].to_string(), "many");
}

#[test]
fn rows_of_digits_are_measured() {
    assert!(digits_are_short(""));
    assert!(digits_are_short("{\"a\": 1234567890}"));
    assert!(digits_are_short(&"9".repeat(MAX_DIGIT_RUN)));
    assert!(!digits_are_short(&"9".repeat(MAX_DIGIT_RUN + 1)));
    let broken = format!("{}.{}", "1".repeat(MAX_DIGIT_RUN), "2".repeat(MAX_DIGIT_RUN));
    assert!(digits_are_short(&broken));
    let late = format!("[\"é\", 0.{}]", "0".repeat(MAX_DIGIT_RUN + 1));
    assert!(!digits_are_short(&late));
    let spread = "12345 ".repeat(20_000);
    assert!(digits_are_short(&spread));
}

#[test]
fn json_is_read_within_the_bound_on_digits() {
    assert!(read_json("{\"a\": [1, 2.5e3, \"x\"]}").is_some());
    assert!(read_json("{").is_none());
    assert!(read_json("").is_none());
    let longest = format!("0.{}", "0".repeat(MAX_DIGIT_RUN));
    assert!(read_json(&longest).is_some());
    let too_long = format!("0.{}", "0".repeat(MAX_DIGIT_RUN + 1));
    assert!(read_json(&too_long).is_none());
    let whole = "1".repeat(MAX_DIGIT_RUN);
    assert!(read_json(&whole).is_some());
    let in_a_string = format!("\"{}\"", "5".repeat(MAX_DIGIT_RUN + 1));
    assert!(read_json(&in_a_string).is_none());
}

#[test]
fn stringify_escapes_texts() {
    let mut task = Task::parse(&json::parse(HIT).unwrap()).unwrap();
    task.id = "a\"b".to_string();
    task.params = "[1, 2]".to_string();
    let text = task.stringify();
    assert!(text.starts_with(r#"{"id":"a\"b","#), "{}", text);
    assert!(text.contains(r#""params":[1,2],"#), "{}", text);
    let again = json::parse(&text).unwrap();
    assert_eq!(again["id"].to_string(), "a\"b");
    assert_eq!(again["attempts"].to_string(), "2");
}

#[test]
fn timestamp_is_read_from_rfc3339() {
    let utc = Timestamp::parse("2020-01-01T00:00:00Z").unwrap();
    assert_eq!(utc.timestamp(), 1_577_836_800);
    assert_eq!(utc.timestamp_millis(), 1_577_836_800_000);
    let east = Timestamp::parse("2020-01-01T01:00:00+01:00").unwrap();
    assert_eq!(east.timestamp(), 1_577_836_800);
    let west = Timestamp::parse("2019-12-31T19:00:00.5-05:00").unwrap();
    assert_eq!(west.timestamp(), 1_577_836_800);
    assert_eq!(west.timestamp_millis(), 1_577_836_800_500);
    let early = Timestamp::parse("1969-12-31T23:59:59.999Z").unwrap();
    assert_eq!(early.timestamp(), -1);
    assert_eq!(early.timestamp_millis(), -1);
}

#[test]
fn timestamp_is_not_read_from_other_texts() {
    for text in ["", "null", "2020-01-01", "2020-01-01T00:00:00", "2020-13-01T00:00:00Z", "1577836800", "tomorrow"] {
        assert!(Timestamp::parse(text).is_none(), "text {:?}", text);
    }
}

#[test]
fn timestamp_is_written_as_rfc3339() {
    assert_eq!(Timestamp::parse("2020-01-01T00:00:00Z").unwrap().to_rfc3339(), "2020-01-01T00:00:00+00:00");
    assert_eq!(Timestamp::parse("2020-01-01T01:00:00+01:00").unwrap().to_rfc3339(), "2020-01-01T01:00:00+01:00");
    assert_eq!(Timestamp::parse("2019-12-31T19:00:00.5-05:00").unwrap().to_rfc3339(), "2019-12-31T19:00:00.500-05:00");
    assert_eq!(Timestamp::from_parts(1_577_836_800, 0, 0).unwrap().to_rfc3339(), "2020-01-01T00:00:00+00:00");
    assert_eq!(Timestamp::from_parts(1_577_836_800, 123_456_789, 3_600).unwrap().to_rfc3339(), "2020-01-01T01:00:00.123456789+01:00");
    assert_eq!(Timestamp::from_parts(0, 1_000, -1_800).unwrap().to_rfc3339(), "1969-12-31T23:30:00.000001-00:30");
}

#[test]
fn timestamp_holds_leap_seconds() {
    let leap = Timestamp::parse("2016-12-31T23:59:60Z").unwrap();
    assert_eq!(leap.timestamp(), 1_483_228_799);
    assert_eq!(leap.timestamp_millis(), 1_483_228_800_000);
    assert_eq!(leap.to_rfc3339(), "2016-12-31T23:59:60+00:00");
    assert_eq!(Timestamp::from_parts(-1, 1_500_000_000, 0).unwrap().to_rfc3339(), "1969-12-31T23:59:60.500+00:00");
    assert!(Timestamp::from_parts(0, 1_000_000_000, 0).is_none());
    assert!(Timestamp::from_parts(-2, 1_000_000_000, 0).is_none());
    assert!(Timestamp::from_parts(59, 2_000_000_000, 0).is_none());
    assert!(Timestamp::from_parts(59, 1_999_999_999, 0).is_some());
}

#[test]
fn timestamp_parts_have_bounds() {
    assert!(Timestamp::from_parts(0, 0, 86_399).is_some());
    assert!(Timestamp::from_parts(0, 0, -86_399).is_some());
    assert!(Timestamp::from_parts(0, 0, 86_400).is_none());
    assert!(Timestamp::from_parts(0, 0, -86_400).is_none());
    assert!(Timestamp::from_parts(EARLIEST_SECONDS - 1, 0, 0).is_none());
    assert!(Timestamp::from_parts(LATEST_SECONDS + 1, 0, 0).is_none());
    assert!(Timestamp::from_parts(i64::MIN, 0, 0).is_none());
    assert!(Timestamp::from_parts(i64::MAX, 0, 0).is_none());
}

#[test]
fn timestamps_at_the_bounds_are_written() {
    assert_eq!(Timestamp::from_parts(EARLIEST_SECONDS, 0, 0).unwrap().to_rfc3339(), "-0001-12-31T00:00:00+00:00");
    assert_eq!(Timestamp::from_parts(LATEST_SECONDS, 0, 0).unwrap().to_rfc3339(), "+10000-01-01T23:59:59+00:00");
    assert_eq!(Timestamp::from_parts(EARLIEST_SECONDS, 0, -86_399).unwrap().to_rfc3339(), "-0001-12-30T00:00:01-24:00");
    assert_eq!(Timestamp::from_parts(LATEST_SECONDS, 1_999_999_999, 86_399).unwrap().to_rfc3339(), "+10000-01-02T23:59:59.999999999+24:00");
}

#[test]
fn every_four_digit_year_is_read_at_every_offset() {
    let first = Timestamp::parse("0000-01-01T00:00:00+23:59").unwrap();
    assert_eq!(first.timestamp(), -62_167_219_200 - 86_340);
    assert_eq!(first.to_rfc3339(), "0000-01-01T00:00:00+23:59");
    let last = Timestamp::parse("9999-12-31T23:59:59-23:59").unwrap();
    assert_eq!(last.timestamp(), 253_402_300_799 + 86_340);
    assert_eq!(last.to_rfc3339(), "9999-12-31T23:59:59-23:59");
}

#[test]
fn timestamp_is_made_from_milliseconds() {
    let stamp = Timestamp::from_millis(1_577_836_800_500).unwrap();
    assert_eq!(stamp.timestamp(), 1_577_836_800);
    assert_eq!(stamp.timestamp_millis(), 1_577_836_800_500);
    assert_eq!(stamp.to_rfc3339(), "2020-01-01T00:00:00.500+00:00");
    let before = Timestamp::from_millis(-1).unwrap();
    assert_eq!(before.timestamp(), -1);
    assert_eq!(before.to_rfc3339(), "1969-12-31T23:59:59.999+00:00");
    assert_eq!(Timestamp::from_millis(-1_000).unwrap().timestamp(), -1);
    assert_eq!(Timestamp::from_millis(-1_001).unwrap().timestamp(), -2);
    assert_eq!(Timestamp::from_millis(0).unwrap().to_rfc3339(), "1970-01-01T00:00:00+00:00");
    assert!(Timestamp::from_millis(i64::MAX).is_none());
    assert!(Timestamp::from_millis(i64::MIN).is_none());
    assert!(Timestamp::from_millis((LATEST_SECONDS + 1) * 1_000).is_none());
    assert!(Timestamp::from_millis(LATEST_SECONDS * 1_000 + 999).is_some());
}
