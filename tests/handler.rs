use product_events::event::{interpret, parse_flag, InputError, QueryEvent};
use product_events::handler::{prepare, respond};
use product_events::json::json_string;
use product_events::publish::{build_record, PublishOutcome};
use product_events::query::QueryParams;
use product_events::timestamp::{capture_text, UnixTime};

fn at(secs: i64, nanos: u32) -> UnixTime {
    UnixTime { secs, nanos }
}

#[test]
fn accepted_record_reports_success() {
    let mut params = QueryParams::new();
    params.push("product_id", "sku-42");
    params.push("product_avail", "false");
    params.push("product_is_published", "true");
    let prepared = prepare(&params, &at(1_700_000_000, 0)).unwrap();
    let event = &prepared.interpretation.event;
    assert_eq!(event.product_id, "sku-42");
    assert!(!event.product_availability);
    assert!(event.product_is_published);
    assert_eq!(prepared.record.partition_key, "sku-42");
    let reply = respond(&prepared.interpretation, &PublishOutcome::Delivered);
    assert_eq!(reply.status, 200);
    assert_eq!(reply.content_type, "text/html");
    assert_eq!(
        reply.body,
        "Hello sku-42, this is an AWS Lambda HTTP response, product status: true, \
         product availability: false, put record result --> true @ 2023-11-14T22:13:20+00:00"
    );
}

#[test]
fn rejected_record_reports_failure_with_defaults() {
    let params = QueryParams::new();
    let prepared = prepare(&params, &at(0, 0)).unwrap();
    let event = &prepared.interpretation.event;
    assert_eq!(event.product_id, "prod1234");
    assert!(event.product_availability);
    assert!(event.product_is_published);
    let outcome = PublishOutcome::Failed(String::from("simulated throttling"));
    assert!(!outcome.succeeded());
    let reply = respond(&prepared.interpretation, &outcome);
    assert_eq!(reply.status, 200);
    assert_eq!(
        reply.body,
        "Hello prod1234, this is an AWS Lambda HTTP response, product status: true, \
         product availability: true, put record result --> false @ 1970-01-01T00:00:00+00:00"
    );
}

#[test]
fn malformed_flag_stops_before_any_record() {
    let mut params = QueryParams::new();
    params.push("product_avail", "notabool");
    let mut submitted: Vec<String> = Vec::new();
    match prepare(&params, &at(1_700_000_000, 0)) {
        Ok(p) => submitted.push(p.record.payload),
        Err(e) => assert_eq!(e, InputError::BadAvailability),
    }
    assert!(submitted.is_empty());
}

#[test]
fn malformed_publication_flag_is_rejected() {
    let mut params = QueryParams::new();
    params.push("product_is_published", "yes");
    assert!(matches!(
        interpret(&params, &at(0, 0)),
        Err(InputError::BadPublished)
    ));
}

#[test]
fn availability_is_checked_first() {
    let mut params = QueryParams::new();
    params.push("product_avail", "TRUE");
    params.push("product_is_published", "1");
    assert!(matches!(
        interpret(&params, &at(0, 0)),
        Err(InputError::BadAvailability)
    ));
}

#[test]
fn time_beyond_calendar_is_rejected() {
    let params = QueryParams::new();
    assert!(matches!(
        interpret(&params, &at(i64::MAX, 0)),
        Err(InputError::ClockOutOfRange)
    ));
}

#[test]
fn first_occurrence_of_a_parameter_wins() {
    let mut params = QueryParams::new();
    params.push("product_id", "first");
    params.push("product_id", "second");
    params.push("other", "x");
    assert_eq!(params.first("product_id"), Some(String::from("first")));
    assert_eq!(params.first("missing"), None);
    let i = interpret(&params, &at(0, 0)).unwrap();
    assert_eq!(i.event.product_id, "first");
}

#[test]
fn flags_echo_raw_text() {
    let mut params = QueryParams::new();
    params.push("product_avail", "false");
    params.push("product_is_published", "false");
    let i = interpret(&params, &at(0, 0)).unwrap();
    assert_eq!(i.availability_text, "false");
    assert_eq!(i.published_text, "false");
    assert!(!i.event.product_availability);
    assert!(!i.event.product_is_published);
}

#[test]
fn flag_literals() {
    assert_eq!(parse_flag("true"), Some(true));
    assert_eq!(parse_flag("false"), Some(false));
    assert_eq!(parse_flag("True"), None);
    assert_eq!(parse_flag(" true"), None);
    assert_eq!(parse_flag(""), None);
}

#[test]
fn capture_text_forms() {
    assert_eq!(capture_text(&at(0, 0)).unwrap(), "1970-01-01T00:00:00+00:00");
    assert_eq!(
        capture_text(&at(1_700_000_000, 123_000_000)).unwrap(),
        "2023-11-14T22:13:20.123+00:00"
    );
    assert_eq!(
        capture_text(&at(1_700_000_000, 123_456_000)).unwrap(),
        "2023-11-14T22:13:20.123456+00:00"
    );
    assert_eq!(
        capture_text(&at(1_700_000_000, 5)).unwrap(),
        "2023-11-14T22:13:20.000000005+00:00"
    );
    assert_eq!(
        capture_text(&at(253_402_300_799, 0)).unwrap(),
        "9999-12-31T23:59:59+00:00"
    );
}

#[test]
fn json_string_escapes() {
    assert_eq!(json_string("plain"), "\"plain\"");
    assert_eq!(
        json_string("a\"b\\c\nd\te\u{1}\u{1f}é"),
        "\"a\\\"b\\\\c\\nd\\te\\u0001\\u001fé\""
    );
    assert_eq!(json_string(""), "\"\"");
}

#[test]
fn record_carries_event_json() {
    let event = QueryEvent {
        product_id: String::from("sku-\"7\""),
        product_availability: false,
        product_is_published: true,
        timestamp: String::from("2023-11-14T22:13:20+00:00"),
    };
    let record = build_record(&event);
    assert_eq!(record.partition_key, "sku-\"7\"");
    assert_eq!(
        record.payload,
        "{\"product_id\":\"sku-\\\"7\\\"\",\"product_availability\":false,\
         \"product_is_published\":true,\"timestamp\":\"2023-11-14T22:13:20+00:00\"}"
    );
    assert_eq!(event.to_json(), record.payload);
}

#[test]
fn reply_status_ignores_outcome() {
    let params = QueryParams::new();
    let i = interpret(&params, &at(0, 0)).unwrap();
    let ok = respond(&i, &PublishOutcome::Delivered);
    let failed = respond(&i, &PublishOutcome::Failed(String::from("denied")));
    assert_eq!(ok.status, 200);
    assert_eq!(failed.status, 200);
    assert!(ok.body.contains("put record result --> true @ "));
    assert!(failed.body.contains("put record result --> false @ "));
}
