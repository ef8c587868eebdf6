use bec_log_ingestor::config::{RedisConfig, UrlPort};
use bec_log_ingestor::json::Json;
use bec_log_ingestor::log_msg::{LogMessagePack, LogMsg};
use bec_log_ingestor::number::{Binary64, Number};
use bec_log_ingestor::reader::{
    setup_consumer_group, start, step, stream_read_opts, ReadOptions, ReaderAction, ReaderEvent,
    ReaderState,
};
use bec_log_ingestor::redis_logs::{
    binary_payloads, error_log_item, extract_records, process_data, read_logs, ReadError,
};
use bec_log_ingestor::stream::{StreamEntry, StreamKey, StreamReply, WireValue};
use std::collections::VecDeque;

fn value_of(json: &Json) -> serde_json::Value {
    match json {
        Json::Null => serde_json::Value::Null,
        Json::Bool(value) => serde_json::Value::Bool(*value),
        Json::Number(Number::Unsigned(value)) => serde_json::Value::from(*value),
        Json::Number(Number::Signed(value)) => serde_json::Value::from(*value),
        Json::Number(Number::Real(value)) => serde_json::Value::from(f64::from_bits(value.to_bits())),
        Json::Text(value) => serde_json::Value::String(value.clone()),
        Json::List(items) => serde_json::Value::Array(items.iter().map(value_of).collect()),
        Json::Object(fields) => serde_json::Value::Object(
            fields.iter().map(|entry| (entry.0.clone(), value_of(&entry.1))).collect(),
        ),
    }
}

fn json_of(value: &serde_json::Value) -> Json {
    match value {
        serde_json::Value::Null => Json::Null,
        serde_json::Value::Bool(value) => Json::Bool(*value),
        serde_json::Value::Number(number) => {
            if let Some(value) = number.as_u64() {
                Json::Number(Number::Unsigned(value))
            } else if let Some(value) = number.as_i64() {
                Json::Number(Number::Signed(value))
            } else {
                let value = number.as_f64().unwrap();
                Json::Number(Number::Real(Binary64::from_bits(value.to_bits())))
            }
        }
        serde_json::Value::String(value) => Json::Text(value.clone()),
        serde_json::Value::Array(items) => Json::List(items.iter().map(json_of).collect()),
        serde_json::Value::Object(fields) => Json::Object(
            fields.iter().map(|entry| (entry.0.clone(), json_of(entry.1))).collect(),
        ),
    }
}

fn field(name: &str, value: Json) -> (String, Json) {
    (name.to_string(), value)
}

fn text(value: &str) -> Json {
    Json::Text(value.to_string())
}

fn tree_of(pack: &LogMessagePack) -> Json {
    let wrapped = &pack.bec_codec;
    Json::Object(vec![field(
        "__bec_codec__",
        Json::Object(vec![
            field("encoder_name", text(&wrapped.encoder_name)),
            field("type_name", text(&wrapped.type_label)),
            field(
                "data",
                Json::Object(vec![
                    field("log_type", text(&wrapped.data.log_type)),
                    field(
                        "log_msg",
                        Json::Object(vec![
                            field("record", wrapped.data.log_msg.record.to_json()),
                            field("service_name", text(&wrapped.data.log_msg.service_name)),
                            field("text", text(&wrapped.data.log_msg.text)),
                        ]),
                    ),
                    field("metadata", wrapped.data.metadata.clone()),
                ]),
            ),
        ]),
    )])
}

fn listed(json: &Json) -> Json {
    match json {
        Json::Object(fields) => Json::List(fields.iter().map(|entry| listed(&entry.1)).collect()),
        other => other.clone(),
    }
}

/// The bytes of an envelope whose parts stand at their places, without names.
fn packed_by_place(pack: &LogMessagePack) -> Vec<u8> {
    rmp_serde::to_vec(&value_of(&listed(&tree_of(pack)))).unwrap()
}

fn packed(pack: &LogMessagePack) -> Vec<u8> {
    rmp_serde::to_vec(&value_of(&tree_of(pack))).unwrap()
}

fn unpacked(payload: &Vec<u8>) -> Option<Json> {
    rmp_serde::from_slice::<serde_json::Value>(payload).ok().map(|value| json_of(&value))
}

fn pack_saying(message: &str) -> LogMessagePack {
    let mut pack = error_log_item();
    pack.bec_codec.data.log_msg.record.message = message.to_string();
    pack.bec_codec.data.log_msg.record.level.name = "INFO".to_string();
    pack.bec_codec.data.log_msg.service_name = "ScanServer".to_string();
    pack
}

fn entry(id: &str, fields: Vec<(&str, WireValue)>) -> StreamEntry {
    StreamEntry {
        id: id.to_string(),
        fields: fields.into_iter().map(|pair| (pair.0.to_string(), pair.1)).collect(),
    }
}

fn reply(entries: Vec<StreamEntry>) -> StreamReply {
    StreamReply { keys: vec![StreamKey { key: "info/log".to_string(), ids: entries }] }
}

fn config() -> RedisConfig {
    RedisConfig {
        url: UrlPort { url: "redis://localhost".to_string(), port: 6379 },
        chunk_size: 25,
        blocktime_millis: 500,
        consumer_group: "ingest".to_string(),
        consumer_id: "worker-1".to_string(),
    }
}

fn poll() -> ReaderAction {
    ReaderAction::Poll {
        stream: "info/log".to_string(),
        position: ">".to_string(),
        options: ReadOptions {
            count: 25,
            block_millis: 500,
            group: "ingest".to_string(),
            consumer: "worker-1".to_string(),
        },
    }
}

fn sentinel() -> LogMsg {
    error_log_item().bec_codec.data.log_msg
}

#[test]
fn test_extract_records() {
    let mut pack = error_log_item();
    pack.bec_codec.data.log_msg.record.message = "test".to_string();
    let records = extract_records(vec![pack.clone()]);
    assert_eq!(records.len(), 1);
    assert_eq!(records[0].record.message, "test");
}

#[test]
fn test_extract_records_empty() {
    let records = extract_records(vec![]);
    assert!(records.is_empty());
}

#[test]
fn extract_records_keeps_the_order() {
    let records = extract_records(vec![pack_saying("a"), pack_saying("b"), pack_saying("c")]);
    let messages: Vec<&str> = records.iter().map(|msg| msg.record.message.as_str()).collect();
    assert_eq!(messages, vec!["a", "b", "c"]);
    assert_eq!(records[1], pack_saying("b").bec_codec.data.log_msg);
}

#[test]
fn test_process_data_valid() {
    let pack = error_log_item();
    let bytes = packed_by_place(&pack);
    let redis_val = WireValue::BulkString(bytes);
    let payloads = binary_payloads(vec![redis_val]).unwrap();
    let trees: Vec<Option<Json>> = payloads.iter().map(unpacked).collect();
    let result = process_data(&trees);
    assert!(result.is_ok());
    let unpacked = result.unwrap();
    assert_eq!(unpacked.len(), 1);
    assert_eq!(unpacked[0].bec_codec.data.log_msg.record.level.name, "ERROR");
    assert_eq!(unpacked[0], pack);
}

#[test]
fn envelopes_by_place_have_the_bytes_of_plain_arrays() {
    let bytes = packed_by_place(&error_log_item());
    let mut expected: Vec<u8> = vec![0x91, 0x93, 0xa0, 0xa0, 0x93, 0xa0, 0x93, 0x9d];
    expected.extend([0x92, 0xa0, 0xcb, 0, 0, 0, 0, 0, 0, 0, 0]);
    expected.extend([0xc0, 0xc0]);
    expected.extend([0x92, 0xa0, 0xa0, 0xa0]);
    expected.extend([0x93, 0xa0, 0xa5]);
    expected.extend(b"ERROR");
    expected.extend([0x64, 0x00, 0xd9, 41]);
    expected.extend(b"Error processing log messages from Redis!");
    expected.extend([0xa0, 0xa0]);
    expected.extend([0x92, 0xa0, 0x00, 0x92, 0xa0, 0x00]);
    expected.extend([0x92, 0xa0, 0xcb, 0, 0, 0, 0, 0, 0, 0, 0]);
    expected.extend([0xa0, 0xa0, 0xc0]);
    assert_eq!(bytes, expected);
}

#[test]
fn process_data_reads_envelopes_with_named_parts() {
    let packs = vec![pack_saying("a"), pack_saying("b")];
    let values: Vec<WireValue> =
        packs.iter().map(|pack| WireValue::BulkString(packed(pack))).collect();
    let payloads = binary_payloads(values).unwrap();
    let trees: Vec<Option<Json>> = payloads.iter().map(unpacked).collect();
    assert_eq!(process_data(&trees), Ok(packs));
}

#[test]
fn process_data_reads_both_forms_in_one_batch() {
    let packs = vec![pack_saying("a"), pack_saying("b")];
    let trees = vec![unpacked(&packed(&packs[0])), unpacked(&packed_by_place(&packs[1]))];
    assert_eq!(process_data(&trees), Ok(packs));
}

#[test]
fn test_process_data_invalid_type() {
    let redis_val = WireValue::Int(42);
    let result = binary_payloads(vec![redis_val]);
    assert!(result.is_err());
    assert_eq!(result, Err(ReadError::NotBinary));
}

#[test]
fn binary_payloads_are_all_or_nothing() {
    assert_eq!(binary_payloads(vec![]), Ok(vec![]));
    assert_eq!(
        binary_payloads(vec![WireValue::BulkString(vec![1, 2]), WireValue::BulkString(vec![])]),
        Ok(vec![vec![1, 2], vec![]])
    );
    for other in [
        WireValue::Nil,
        WireValue::Int(0),
        WireValue::SimpleString("data".to_string()),
        WireValue::Okay,
        WireValue::Other,
    ] {
        assert_eq!(
            binary_payloads(vec![WireValue::BulkString(vec![1]), other]),
            Err(ReadError::NotBinary)
        );
    }
}

#[test]
fn process_data_is_all_or_nothing() {
    assert_eq!(process_data(&vec![]), Ok(vec![]));
    let good = Some(tree_of(&pack_saying("a")));
    assert_eq!(process_data(&vec![good.clone(), good.clone()]).unwrap().len(), 2);
    assert_eq!(process_data(&vec![good.clone(), None]), Err(ReadError::Undecodable));
    assert_eq!(process_data(&vec![None, good.clone()]), Err(ReadError::Undecodable));
    assert_eq!(
        process_data(&vec![good.clone(), Some(Json::Object(vec![]))]),
        Err(ReadError::Undecodable)
    );
    assert_eq!(process_data(&vec![Some(text("hello")), good]), Err(ReadError::Undecodable));
}

#[test]
fn bytes_that_are_no_envelope_are_not_decoded() {
    assert_eq!(unpacked(&vec![0xc1]), None);
    let trees = vec![unpacked(&vec![0xc1])];
    assert_eq!(process_data(&trees), Err(ReadError::Undecodable));
    let trees = vec![unpacked(&rmp_serde::to_vec(&serde_json::Value::from(42)).unwrap())];
    assert_eq!(trees, vec![Some(Json::Number(Number::Unsigned(42)))]);
    assert_eq!(process_data(&trees), Err(ReadError::Undecodable));
}

#[test]
fn read_logs_takes_the_data_of_each_entry() {
    let read = read_logs(&reply(vec![
        entry("1-0", vec![("data", WireValue::BulkString(vec![1]))]),
        entry("1-1", vec![("other", WireValue::Okay), ("data", WireValue::Int(7))]),
        entry(
            "2-0",
            vec![("data", WireValue::BulkString(vec![3])), ("data", WireValue::BulkString(vec![4]))],
        ),
    ]));
    assert_eq!(
        read,
        Ok((
            Some("2-0".to_string()),
            vec![WireValue::BulkString(vec![1]), WireValue::Int(7), WireValue::BulkString(vec![3])]
        ))
    );
}

#[test]
fn read_logs_of_the_first_key_only() {
    let read = read_logs(&StreamReply {
        keys: vec![
            StreamKey {
                key: "info/log".to_string(),
                ids: vec![entry("1-0", vec![("data", WireValue::BulkString(vec![1]))])],
            },
            StreamKey { key: "other".to_string(), ids: vec![entry("9-9", vec![])] },
        ],
    });
    assert_eq!(read, Ok((Some("1-0".to_string()), vec![WireValue::BulkString(vec![1])])));
}

#[test]
fn read_logs_without_a_key_is_an_error() {
    assert_eq!(read_logs(&StreamReply { keys: vec![] }), Err(ReadError::KeyMismatch));
    assert_eq!(
        ReadError::KeyMismatch.message(),
        "We got a response for request with one key, there must be one key!"
    );
}

#[test]
fn read_logs_without_entries_has_no_last_id() {
    assert_eq!(read_logs(&reply(vec![])), Ok((None, vec![])));
}

#[test]
fn read_logs_without_a_data_field_is_an_error() {
    let read = read_logs(&reply(vec![
        entry("1-0", vec![("data", WireValue::BulkString(vec![1]))]),
        entry("1-1", vec![("payload", WireValue::BulkString(vec![2]))]),
        entry("1-2", vec![("data", WireValue::BulkString(vec![3]))]),
    ]));
    assert_eq!(read, Err(ReadError::NoData));
    assert_eq!(read_logs(&reply(vec![entry("1-0", vec![])])), Err(ReadError::NoData));
    assert_eq!(ReadError::NoData.message(), "Uh oh, log message contained no data");
}

#[test]
fn errors_have_their_words() {
    assert_eq!(ReadError::NotBinary.message(), "Log message data not binary-data!");
    assert_eq!(ReadError::Undecodable.message(), "Log message data not a log message!");
}

#[test]
fn an_entry_is_searched_by_field_name() {
    let found = entry("1-0", vec![("a", WireValue::Int(1)), ("data", WireValue::Int(2))]);
    assert_eq!(found.field("data"), Some(&WireValue::Int(2)));
    assert_eq!(found.field("a"), Some(&WireValue::Int(1)));
    assert_eq!(found.field("b"), None);
    assert_eq!(WireValue::BulkString(vec![1, 2, 3]).clone(), WireValue::BulkString(vec![1, 2, 3]));
}

#[test]
fn read_options_come_from_the_configuration() {
    assert_eq!(
        stream_read_opts(&config()),
        ReadOptions {
            count: 25,
            block_millis: 500,
            group: "ingest".to_string(),
            consumer: "worker-1".to_string()
        }
    );
}

#[test]
fn the_reader_begins_by_connecting() {
    assert_eq!(
        start(&config()),
        (ReaderState::Uninitialized, ReaderAction::Connect { url: "redis://localhost:6379".to_string() })
    );
}

#[test]
fn the_reader_sets_up_its_group_and_consumer() {
    let config = config();
    let next = step(&config, ReaderState::Uninitialized, ReaderEvent::Connected(true));
    assert_eq!(
        next,
        (
            ReaderState::Connected,
            ReaderAction::CreateGroup {
                stream: "info/log".to_string(),
                group: "ingest".to_string(),
                start: "0".to_string()
            }
        )
    );
    let next = step(&config, next.0, ReaderEvent::GroupCreated);
    assert_eq!(
        next,
        (
            ReaderState::GroupEnsured,
            ReaderAction::RegisterConsumer {
                stream: "info/log".to_string(),
                group: "ingest".to_string(),
                consumer: "worker-1".to_string(),
                notice: None
            }
        )
    );
    let next = step(&config, next.0, ReaderEvent::ConsumerRegistered(true));
    assert_eq!(next, (ReaderState::Polling, poll()));
}

#[test]
fn a_failed_connection_aborts() {
    assert_eq!(
        step(&config(), ReaderState::Uninitialized, ReaderEvent::Connected(false)),
        (ReaderState::Aborted, ReaderAction::Abort("Could not connect to Redis!".to_string()))
    );
}

#[test]
fn a_group_that_exists_is_rejoined() {
    let next = step(
        &config(),
        ReaderState::Connected,
        ReaderEvent::GroupRefused(Some("BUSYGROUP".to_string())),
    );
    assert_eq!(
        next,
        (
            ReaderState::GroupEnsured,
            ReaderAction::RegisterConsumer {
                stream: "info/log".to_string(),
                group: "ingest".to_string(),
                consumer: "worker-1".to_string(),
                notice: Some("Group ingest already exists, rejoining with ID worker-1".to_string())
            }
        )
    );
    assert_eq!(
        setup_consumer_group(&config(), Some(Some("BUSYGROUP".to_string()))),
        next
    );
}

#[test]
fn any_other_refusal_of_the_group_aborts() {
    let abort = (
        ReaderState::Aborted,
        ReaderAction::Abort("Failed to create Redis consumer group ingest!".to_string()),
    );
    assert_eq!(setup_consumer_group(&config(), Some(None)), abort);
    assert_eq!(setup_consumer_group(&config(), Some(Some("ERR".to_string()))), abort);
    assert_eq!(setup_consumer_group(&config(), Some(Some("busygroup".to_string()))), abort);
    assert_eq!(
        step(&config(), ReaderState::Connected, ReaderEvent::GroupRefused(Some("NOAUTH".to_string()))),
        abort
    );
}

#[test]
fn a_consumer_that_is_not_registered_aborts() {
    assert_eq!(
        step(&config(), ReaderState::GroupEnsured, ReaderEvent::ConsumerRegistered(false)),
        (
            ReaderState::Aborted,
            ReaderAction::Abort(
                "Failed to create Redis consumer ID worker-1 in group ingest!".to_string()
            )
        )
    );
}

#[test]
fn a_read_that_gives_nothing_leads_to_the_next_read() {
    let config = config();
    assert_eq!(step(&config, ReaderState::Polling, ReaderEvent::Read(None)), (ReaderState::Polling, poll()));
    assert_eq!(
        step(&config, ReaderState::Polling, ReaderEvent::Read(Some(StreamReply { keys: vec![] }))),
        (ReaderState::Polling, poll())
    );
    assert_eq!(
        step(&config, ReaderState::Polling, ReaderEvent::Read(Some(reply(vec![])))),
        (ReaderState::Polling, poll())
    );
}

#[test]
fn a_read_without_a_data_field_enqueues_the_sentinel_alone() {
    let config = config();
    let read = reply(vec![
        entry("1-0", vec![("data", WireValue::BulkString(packed(&pack_saying("a"))))]),
        entry("1-1", vec![("payload", WireValue::BulkString(packed(&pack_saying("b"))))]),
    ]);
    assert_eq!(read_logs(&read), Err(ReadError::NoData));
    let next = step(&config, ReaderState::Polling, ReaderEvent::Read(Some(read)));
    assert_eq!(next, (ReaderState::Pushing(VecDeque::new()), ReaderAction::Push(sentinel())));
    assert_eq!(step(&config, next.0, ReaderEvent::Pushed(true)), (ReaderState::Polling, poll()));
}

#[test]
fn a_read_of_one_entry_without_fields_enqueues_the_sentinel_alone() {
    let config = config();
    let next = step(
        &config,
        ReaderState::Polling,
        ReaderEvent::Read(Some(reply(vec![entry("1-0", vec![])]))),
    );
    assert_eq!(next, (ReaderState::Pushing(VecDeque::new()), ReaderAction::Push(sentinel())));
    assert_eq!(
        step(&config, next.0, ReaderEvent::Pushed(false)),
        (ReaderState::Stopped, ReaderAction::Stop("Receiver dropped, stopping...".to_string()))
    );
}

#[test]
fn a_read_with_data_that_is_not_binary_enqueues_the_sentinel_alone() {
    let config = config();
    let read = reply(vec![
        entry("1-0", vec![("data", WireValue::BulkString(packed(&pack_saying("a"))))]),
        entry("1-1", vec![("data", WireValue::Int(42))]),
    ]);
    let next = step(&config, ReaderState::Polling, ReaderEvent::Read(Some(read)));
    assert_eq!(next, (ReaderState::Pushing(VecDeque::new()), ReaderAction::Push(sentinel())));
    assert_eq!(step(&config, next.0, ReaderEvent::Pushed(true)), (ReaderState::Polling, poll()));
}

#[test]
fn a_read_with_binary_data_goes_to_be_decoded() {
    let read = reply(vec![
        entry("1-0", vec![("data", WireValue::BulkString(vec![1, 2]))]),
        entry("1-1", vec![("data", WireValue::BulkString(vec![3]))]),
    ]);
    assert_eq!(
        step(&config(), ReaderState::Polling, ReaderEvent::Read(Some(read))),
        (ReaderState::Decoding, ReaderAction::Decode(vec![vec![1, 2], vec![3]]))
    );
}

#[test]
fn a_malformed_batch_enqueues_exactly_one_sentinel() {
    let config = config();
    let trees = vec![Some(tree_of(&pack_saying("a"))), None, Some(tree_of(&pack_saying("c")))];
    let next = step(&config, ReaderState::Decoding, ReaderEvent::Decoded(trees));
    assert_eq!(next, (ReaderState::Pushing(VecDeque::new()), ReaderAction::Push(sentinel())));
    match &next.1 {
        ReaderAction::Push(msg) => {
            assert_eq!(msg.record.level.name, "ERROR");
            assert_eq!(msg.record.message, "Error processing log messages from Redis!");
        }
        other => panic!("expected a push, got {other:?}"),
    }
    assert_eq!(step(&config, next.0, ReaderEvent::Pushed(true)), (ReaderState::Polling, poll()));
}

#[test]
fn a_decoded_batch_is_pushed_in_order() {
    let config = config();
    let packs = vec![pack_saying("a"), pack_saying("b"), pack_saying("c")];
    let trees: Vec<Option<Json>> = packs.iter().map(|pack| Some(tree_of(pack))).collect();
    let mut next = step(&config, ReaderState::Decoding, ReaderEvent::Decoded(trees));
    let mut pushed: Vec<String> = Vec::new();
    while let ReaderAction::Push(msg) = next.1 {
        pushed.push(msg.record.message.clone());
        next = step(&config, next.0, ReaderEvent::Pushed(true));
    }
    assert_eq!(pushed, vec!["a", "b", "c"]);
    assert_eq!(next, (ReaderState::Polling, poll()));
}

#[test]
fn an_empty_decoded_batch_leads_to_the_next_read() {
    assert_eq!(
        step(&config(), ReaderState::Decoding, ReaderEvent::Decoded(vec![])),
        (ReaderState::Polling, poll())
    );
}

#[test]
fn a_dropped_consumer_stops_the_reader() {
    let config = config();
    let (tx, rx) = tokio::sync::mpsc::unbounded_channel::<LogMsg>();
    let packs = vec![pack_saying("a"), pack_saying("b"), pack_saying("c")];
    let trees: Vec<Option<Json>> = packs.iter().map(|pack| Some(tree_of(pack))).collect();
    let mut next = step(&config, ReaderState::Decoding, ReaderEvent::Decoded(trees));
    let mut pushes = 0;
    let mut rx = Some(rx);
    while let ReaderAction::Push(msg) = next.1 {
        pushes += 1;
        let taken = tx.send(msg).is_ok();
        rx = None;
        next = step(&config, next.0, ReaderEvent::Pushed(taken));
    }
    assert!(rx.is_none());
    assert_eq!(pushes, 2);
    assert_eq!(
        next,
        (ReaderState::Stopped, ReaderAction::Stop("Receiver dropped, stopping...".to_string()))
    );
    assert_eq!(
        step(&config, next.0, ReaderEvent::Pushed(true)),
        (ReaderState::Stopped, ReaderAction::Halt)
    );
}

#[test]
fn an_ended_reader_stays_as_it_is() {
    let config = config();
    assert_eq!(
        step(&config, ReaderState::Stopped, ReaderEvent::Read(None)),
        (ReaderState::Stopped, ReaderAction::Halt)
    );
    assert_eq!(
        step(&config, ReaderState::Aborted, ReaderEvent::Connected(true)),
        (ReaderState::Aborted, ReaderAction::Halt)
    );
}

#[test]
fn an_answer_that_is_not_awaited_aborts() {
    let abort = (
        ReaderState::Aborted,
        ReaderAction::Abort("Unexpected answer to the reader!".to_string()),
    );
    let config = config();
    assert_eq!(step(&config, ReaderState::Uninitialized, ReaderEvent::Pushed(true)), abort);
    assert_eq!(step(&config, ReaderState::Polling, ReaderEvent::Connected(true)), abort);
    assert_eq!(step(&config, ReaderState::Decoding, ReaderEvent::Read(None)), abort);
    assert_eq!(step(&config, ReaderState::Connected, ReaderEvent::ConsumerRegistered(true)), abort);
    assert_eq!(
        step(&config, ReaderState::Pushing(VecDeque::new()), ReaderEvent::GroupCreated),
        abort
    );
}
