use bec_log_ingestor::json::Json;
use bec_log_ingestor::log_msg::{
    Elapsed, File, LogLevel, LogMessage, LogMessagePack, LogMessagePackInternal, LogMsg, LogRecord,
    NameId, Timestamp, EARLIEST_SECONDS, LATEST_SECONDS,
};
use bec_log_ingestor::number::{Binary64, Number};
use bec_log_ingestor::redis_logs::error_log_item;

fn binary64(value: f64) -> Number {
    Number::Real(Binary64::from_bits(value.to_bits()))
}

fn field(name: &str, value: Json) -> (String, Json) {
    (name.to_string(), value)
}

fn text(value: &str) -> Json {
    Json::Text(value.to_string())
}

fn sample_record() -> LogRecord {
    LogRecord {
        elapsed: Elapsed { repr: "0:00:01.500000".to_string(), seconds: binary64(1.5) },
        exception: Some(Json::Object(vec![
            field("type", text("ValueError")),
            field("traceback", Json::List(vec![text("line 1"), text("line 2")])),
        ])),
        extra: Json::Object(vec![
            field("attempt", Json::Number(Number::Unsigned(3))),
            field("offset", Json::Number(Number::Signed(-4))),
            field("ratio", Json::Number(binary64(0.25))),
            field("flag", Json::Bool(true)),
            field("nothing", Json::Null),
        ]),
        file: File { name: "scan.py".to_string(), path: "/opt/bec/scan.py".to_string() },
        function: "run".to_string(),
        level: LogLevel { icon: "!".to_string(), name: "WARNING".to_string(), no: 30 },
        line: 212,
        message: "motor stalled".to_string(),
        module: "scan".to_string(),
        name: "bec.scan".to_string(),
        process: NameId { name: "MainProcess".to_string(), id: 4711 },
        thread: NameId { name: "MainThread".to_string(), id: 140_001 },
        time: Timestamp { repr: "2015-05-15 00:00:00".to_string(), timestamp: binary64(1_431_648_000.25) },
    }
}

fn envelope_tree(record: &LogRecord) -> Json {
    Json::Object(vec![field(
        "__bec_codec__",
        Json::Object(vec![
            field("encoder_name", text("BECMessage")),
            field("type_name", text("LogMessage")),
            field(
                "data",
                Json::Object(vec![
                    field("log_type", text("warning")),
                    field(
                        "log_msg",
                        Json::Object(vec![
                            field("record", record.to_json()),
                            field("service_name", text("ScanServer")),
                            field("text", text("rendered")),
                        ]),
                    ),
                    field("metadata", Json::Object(vec![field("scan", text("42"))])),
                ]),
            ),
        ]),
    )])
}

fn without(object: &Json, name: &str) -> Json {
    match object {
        Json::Object(fields) => {
            Json::Object(fields.iter().filter(|entry| entry.0 != name).cloned().collect())
        }
        other => other.clone(),
    }
}

fn with(object: &Json, name: &str, value: Json) -> Json {
    match without(object, name) {
        Json::Object(mut fields) => {
            fields.push(field(name, value));
            Json::Object(fields)
        }
        other => other,
    }
}

#[test]
fn test_error_log_item_contents() {
    let err_item = error_log_item();
    assert_eq!(err_item.bec_codec.data.log_msg.record.level.name, "ERROR");
    assert_eq!(
        err_item.bec_codec.data.log_msg.record.message,
        "Error processing log messages from Redis!"
    );
}

#[test]
fn error_log_item_is_empty_but_for_level_and_message() {
    let expected = LogMessagePack {
        bec_codec: LogMessagePackInternal {
            encoder_name: "".into(),
            type_label: "".into(),
            data: LogMessage {
                log_type: "".into(),
                log_msg: LogMsg {
                    record: LogRecord {
                        elapsed: Elapsed { repr: "".into(), seconds: binary64(0.0) },
                        exception: None,
                        extra: Json::Null,
                        file: File { name: "".into(), path: "".into() },
                        function: "".into(),
                        level: LogLevel { icon: "".into(), name: "ERROR".into(), no: 100 },
                        line: 0,
                        message: "Error processing log messages from Redis!".into(),
                        module: "".into(),
                        name: "".into(),
                        process: NameId { name: "".into(), id: 0 },
                        thread: NameId { name: "".into(), id: 0 },
                        time: Timestamp { repr: "".into(), timestamp: binary64(0.0) },
                    },
                    service_name: "".into(),
                    text: "".into(),
                },
                metadata: Json::Null,
            },
        },
    };
    assert_eq!(error_log_item(), expected);
}

#[test]
fn test_logrecord_serde_roundtrip() {
    let record = error_log_item().bec_codec.data.log_msg.record.clone();
    let ser = record.to_json();
    let de: LogRecord = LogRecord::from_json(&ser).unwrap();
    assert_eq!(record, de);
}

#[test]
fn a_full_record_reads_back() {
    let record = sample_record();
    assert_eq!(LogRecord::from_json(&record.to_json()), Some(record));
}

#[test]
fn a_decoded_record_survives_the_round_trip() {
    let tree = envelope_tree(&sample_record());
    let decoded = LogMessagePack::from_json(&tree).unwrap().bec_codec.data.log_msg.record;
    let again = LogRecord::from_json(&decoded.to_json()).unwrap();
    assert_eq!(again, decoded);
}

#[test]
fn a_null_exception_reads_back_as_none() {
    let mut record = sample_record();
    record.exception = Some(Json::Null);
    let read = LogRecord::from_json(&record.to_json()).unwrap();
    assert_eq!(read.exception, None);
    record.exception = None;
    assert_eq!(read, record);
}

#[test]
fn a_record_is_written_with_one_field_for_each_part() {
    let record = sample_record();
    let tree = record.to_json();
    let names: Vec<String> = match &tree {
        Json::Object(fields) => fields.iter().map(|entry| entry.0.clone()).collect(),
        _ => panic!("a record is written as an object"),
    };
    assert_eq!(
        names,
        vec![
            "elapsed", "exception", "extra", "file", "function", "level", "line", "message",
            "module", "name", "process", "thread", "time"
        ]
    );
    assert_eq!(tree.get("line"), Some(&Json::Number(Number::Unsigned(212))));
    assert_eq!(tree.get("message"), Some(&text("motor stalled")));
    assert_eq!(
        tree.get("file"),
        Some(&Json::Object(vec![
            field("name", text("scan.py")),
            field("path", text("/opt/bec/scan.py"))
        ]))
    );
    assert_eq!(
        tree.get("process"),
        Some(&Json::Object(vec![
            field("name", text("MainProcess")),
            field("id", Json::Number(Number::Unsigned(4711)))
        ]))
    );
    assert_eq!(
        tree.get("time"),
        Some(&Json::Object(vec![
            field("repr", text("2015-05-15 00:00:00")),
            field("timestamp", Json::Number(binary64(1_431_648_000.25)))
        ]))
    );
    assert_eq!(LogRecord { exception: None, ..record }.to_json().get("exception"), Some(&Json::Null));
}

#[test]
fn an_envelope_is_read_from_its_tree() {
    let record = sample_record();
    let pack = LogMessagePack::from_json(&envelope_tree(&record)).unwrap();
    assert_eq!(pack.bec_codec.encoder_name, "BECMessage");
    assert_eq!(pack.bec_codec.type_label, "LogMessage");
    assert_eq!(pack.bec_codec.data.log_type, "warning");
    assert_eq!(pack.bec_codec.data.metadata, Json::Object(vec![field("scan", text("42"))]));
    assert_eq!(pack.bec_codec.data.log_msg.service_name, "ScanServer");
    assert_eq!(pack.bec_codec.data.log_msg.text, "rendered");
    assert_eq!(pack.bec_codec.data.log_msg.record, record);
}

#[test]
fn an_envelope_without_its_key_is_not_read() {
    let record = sample_record();
    let inner = envelope_tree(&record).get("__bec_codec__").unwrap().clone();
    assert_eq!(LogMessagePack::from_json(&inner), None);
    assert_eq!(LogMessagePack::from_json(&Json::Null), None);
    assert_eq!(LogMessagePack::from_json(&Json::List(vec![])), None);
    assert_eq!(LogMessagePack::from_json(&Json::List(vec![Json::Null])), None);
    assert_eq!(
        LogMessagePack::from_json(&Json::List(vec![inner])),
        LogMessagePack::from_json(&envelope_tree(&record))
    );
    assert_eq!(LogMessagePack::from_json(&Json::Object(vec![])), None);
}

#[test]
fn a_record_with_a_missing_part_is_not_read() {
    let tree = sample_record().to_json();
    for name in [
        "elapsed", "extra", "file", "function", "level", "line", "message", "module", "name",
        "process", "thread", "time",
    ] {
        assert_eq!(LogRecord::from_json(&without(&tree, name)), None, "without {name}");
    }
    let read = LogRecord::from_json(&without(&tree, "exception")).unwrap();
    assert_eq!(read.exception, None);
}

#[test]
fn a_record_with_a_part_of_another_kind_is_not_read() {
    let tree = sample_record().to_json();
    assert_eq!(LogRecord::from_json(&with(&tree, "line", text("212"))), None);
    assert_eq!(LogRecord::from_json(&with(&tree, "line", Json::Number(Number::Signed(-1)))), None);
    assert_eq!(LogRecord::from_json(&with(&tree, "line", Json::Number(binary64(212.0)))), None);
    assert_eq!(LogRecord::from_json(&with(&tree, "message", Json::Null)), None);
    assert_eq!(LogRecord::from_json(&with(&tree, "file", text("scan.py"))), None);
    assert_eq!(LogRecord::from_json(&with(&tree, "time", Json::Number(binary64(0.0)))), None);
    let integral = with(
        &tree,
        "time",
        Json::Object(vec![
            field("repr", text("")),
            field("timestamp", Json::Number(Number::Unsigned(1_431_648_000))),
        ]),
    );
    let read = LogRecord::from_json(&integral).unwrap();
    assert_eq!(read.time.timestamp, Number::Unsigned(1_431_648_000));
}

fn listed(json: &Json) -> Json {
    match json {
        Json::Object(fields) => Json::List(fields.iter().map(|entry| listed(&entry.1)).collect()),
        other => other.clone(),
    }
}

#[test]
fn a_record_is_read_from_a_list_of_its_parts() {
    let mut record = sample_record();
    record.exception = None;
    record.extra = Json::Null;
    let tree = listed(&record.to_json());
    match &tree {
        Json::List(items) => assert_eq!(items.len(), 13),
        other => panic!("expected a list, got {other:?}"),
    }
    assert_eq!(LogRecord::from_json(&tree), Some(record.clone()));
    let mut longer = match tree.clone() {
        Json::List(items) => items,
        _ => vec![],
    };
    longer.push(text("more"));
    assert_eq!(LogRecord::from_json(&Json::List(longer)), Some(record));
    let shorter = match tree {
        Json::List(mut items) => {
            items.pop();
            items
        }
        _ => vec![],
    };
    assert_eq!(LogRecord::from_json(&Json::List(shorter)), None);
}

#[test]
fn an_envelope_is_read_from_lists() {
    let mut record = sample_record();
    record.exception = None;
    record.extra = Json::List(vec![text("kept"), Json::Bool(true)]);
    let tree = Json::List(vec![Json::List(vec![
        text("BECMessage"),
        text("LogMessage"),
        Json::List(vec![
            text("warning"),
            Json::List(vec![
                {
                    let mut parts = match listed(&record.to_json()) {
                        Json::List(parts) => parts,
                        _ => vec![],
                    };
                    parts[2] = record.extra.clone();
                    Json::List(parts)
                },
                text("ScanServer"),
                text("rendered"),
            ]),
            Json::Null,
        ]),
    ])]);
    let pack = LogMessagePack::from_json(&tree).unwrap();
    assert_eq!(pack.bec_codec.encoder_name, "BECMessage");
    assert_eq!(pack.bec_codec.type_label, "LogMessage");
    assert_eq!(pack.bec_codec.data.log_type, "warning");
    assert_eq!(pack.bec_codec.data.metadata, Json::Null);
    assert_eq!(pack.bec_codec.data.log_msg.service_name, "ScanServer");
    assert_eq!(pack.bec_codec.data.log_msg.text, "rendered");
    assert_eq!(pack.bec_codec.data.log_msg.record, record);
}

#[test]
fn the_rendered_text_of_a_log_message_may_be_missing() {
    let record = sample_record();
    let with_text = |text_field: Option<Json>| {
        let mut fields =
            vec![field("record", record.to_json()), field("service_name", text("ScanServer"))];
        if let Some(value) = text_field {
            fields.push(field("text", value));
        }
        Json::Object(fields)
    };
    assert_eq!(LogMsg::from_json(&with_text(None)).unwrap().text, "");
    assert_eq!(LogMsg::from_json(&with_text(Some(Json::Null))).unwrap().text, "");
    assert_eq!(LogMsg::from_json(&with_text(Some(text("rendered")))).unwrap().text, "rendered");
    assert_eq!(LogMsg::from_json(&with_text(Some(Json::Bool(true)))), None);
    let by_place = Json::List(vec![record.to_json(), text("ScanServer")]);
    let read = LogMsg::from_json(&by_place).unwrap();
    assert_eq!(read.text, "");
    assert_eq!(read.service_name, "ScanServer");
    assert_eq!(read.record, record);
}

#[test]
fn parts_are_found_by_name_or_by_place() {
    let object = Json::Object(vec![field("a", text("x")), field("b", text("y"))]);
    assert_eq!(object.part("b", 0), Some(&text("y")));
    assert_eq!(object.part("c", 0), None);
    let list = Json::List(vec![text("x"), text("y")]);
    assert_eq!(list.part("b", 0), Some(&text("x")));
    assert_eq!(list.part("a", 1), Some(&text("y")));
    assert_eq!(list.part("a", 2), None);
    assert_eq!(text("x").part("a", 0), None);
    assert_eq!(Json::Null.part("a", 0), None);
}

#[test]
fn fields_that_are_not_parts_are_ignored() {
    let record = sample_record();
    let tree = with(&record.to_json(), "colour", text("blue"));
    assert_eq!(LogRecord::from_json(&tree), Some(record));
}

#[test]
fn a_field_is_found_by_its_first_occurrence() {
    let object = Json::Object(vec![
        field("a", text("first")),
        field("b", text("other")),
        field("a", text("second")),
    ]);
    assert_eq!(object.get("a"), Some(&text("first")));
    assert_eq!(object.get("b"), Some(&text("other")));
    assert_eq!(object.get("c"), None);
    assert_eq!(text("a").get("a"), None);
    assert_eq!(Json::List(vec![text("a")]).get("a"), None);
}

#[test]
fn copies_of_structured_data_are_equal() {
    let data = sample_record().to_json();
    assert_eq!(data.clone(), data);
    assert_eq!(Json::list(vec![text("a"), Json::Null]), Json::List(vec![text("a"), Json::Null]));
    assert_eq!(
        Json::object(vec![field("a", Json::Bool(false))]),
        Json::Object(vec![field("a", Json::Bool(false))])
    );
}

#[test]
fn timestamp_zero_renders_as_the_epoch() {
    let time = Timestamp { repr: "".to_string(), timestamp: binary64(0.0) };
    assert!(time.is_renderable());
    assert_eq!(time.as_rfc3339(), "1970-01-01T00:00:00+00:00");
}

#[test]
fn timestamps_render_to_the_whole_second() {
    let time = Timestamp { repr: "".to_string(), timestamp: binary64(1_431_648_000.999) };
    assert_eq!(time.as_rfc3339(), "2015-05-15T00:00:00+00:00");
    let time = Timestamp { repr: "".to_string(), timestamp: binary64(-0.5) };
    assert_eq!(time.as_rfc3339(), "1970-01-01T00:00:00+00:00");
    let time = Timestamp { repr: "".to_string(), timestamp: binary64(-1.0) };
    assert_eq!(time.as_rfc3339(), "1969-12-31T23:59:59+00:00");
    let time = Timestamp { repr: "".to_string(), timestamp: Number::Unsigned(951_782_400) };
    assert_eq!(time.as_rfc3339(), "2000-02-29T00:00:00+00:00");
    let time = Timestamp { repr: "".to_string(), timestamp: Number::Signed(-86_400) };
    assert_eq!(time.as_rfc3339(), "1969-12-31T00:00:00+00:00");
    let time = Timestamp { repr: "".to_string(), timestamp: binary64(f64::NAN) };
    assert_eq!(time.as_rfc3339(), "1970-01-01T00:00:00+00:00");
}

#[test]
fn the_renderable_years_are_those_of_the_calendar() {
    let earliest = Timestamp { repr: "".to_string(), timestamp: Number::Signed(EARLIEST_SECONDS) };
    assert!(earliest.is_renderable());
    assert_eq!(earliest.as_rfc3339(), "-262143-01-01T00:00:00+00:00");
    let latest = Timestamp { repr: "".to_string(), timestamp: Number::Signed(LATEST_SECONDS) };
    assert!(latest.is_renderable());
    assert_eq!(latest.as_rfc3339(), "+262142-12-31T23:59:59+00:00");
    let before = Timestamp { repr: "".to_string(), timestamp: Number::Signed(EARLIEST_SECONDS - 1) };
    assert!(!before.is_renderable());
    assert!(chrono::DateTime::from_timestamp(EARLIEST_SECONDS - 1, 0).is_none());
    let after = Timestamp { repr: "".to_string(), timestamp: Number::Signed(LATEST_SECONDS + 1) };
    assert!(!after.is_renderable());
    assert!(chrono::DateTime::from_timestamp(LATEST_SECONDS + 1, 0).is_none());
    assert!(!Timestamp { repr: "".to_string(), timestamp: binary64(1.0e300) }.is_renderable());
    assert!(!Timestamp { repr: "".to_string(), timestamp: binary64(f64::NEG_INFINITY) }.is_renderable());
    assert!(!Timestamp { repr: "".to_string(), timestamp: Number::Unsigned(u64::MAX) }.is_renderable());
}
