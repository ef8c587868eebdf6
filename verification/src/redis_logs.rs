//! The reader's side of the pipeline: from what a read of the stream gave to
//! the log messages that are handed on.

use crate::json::{Json, JsonModel};
pub use crate::log_msg::{
    Elapsed, ElapsedView, File, FileView, LogLevel, LogLevelView, LogMessage, LogMessagePack,
    LogMessagePackInternal, LogMessagePackInternalView, LogMessagePackView, LogMessageView, LogMsg,
    LogMsgView, LogRecord, LogRecordView, NameId, NameIdView, Timestamp, TimestampView,
};
use crate::number::{Binary64, Number};
use crate::stream::{StreamEntryView, StreamReply, StreamReplyView, WireValue, WireValueView};
use crate::views::{option_view, option_views, views};
use vstd::prelude::*;

verus! {

/// Why a read cycle gave no log messages.
#[derive(Clone, Copy, Debug, PartialEq, Eq, Structural)]
pub enum ReadError {
    /// The reply holds no key, though one key was asked for.
    KeyMismatch,
    /// An entry has no field called `data`.
    NoData,
    /// A `data` field holds something other than bytes.
    NotBinary,
    /// The bytes of a `data` field do not hold an envelope.
    Undecodable,
}

impl ReadError {
    pub open spec fn message_text(self) -> Seq<char> {
        match self {
            ReadError::KeyMismatch =>
                "We got a response for request with one key, there must be one key!"@,
            ReadError::NoData => "Uh oh, log message contained no data"@,
            ReadError::NotBinary => "Log message data not binary-data!"@,
            ReadError::Undecodable => "Log message data not a log message!"@,
        }
    }

    /// The error in words.
    pub fn message(&self) -> (text: String)
        ensures
            text@ == self.message_text(),
    {
        match self {
            ReadError::KeyMismatch => String::from_str(
                "We got a response for request with one key, there must be one key!",
            ),
            ReadError::NoData => String::from_str("Uh oh, log message contained no data"),
            ReadError::NotBinary => String::from_str("Log message data not binary-data!"),
            ReadError::Undecodable => String::from_str("Log message data not a log message!"),
        }
    }
}

/// The name of the field that carries an entry's envelope.
pub open spec fn data_field() -> Seq<char> {
    "data"@
}

/// Whether each of the entries has a `data` field.
pub open spec fn all_have_data(entries: Seq<StreamEntryView>) -> bool {
    forall|i: int| 0 <= i < entries.len() ==> (#[trigger] entries[i]).field(data_field()) is Some
}

/// The `data` fields of the entries, in their order.
pub open spec fn data_of(entries: Seq<StreamEntryView>) -> Seq<WireValueView> {
    Seq::new(entries.len(), |i: int| entries[i].field(data_field())->0)
}

/// The id of the last of the entries.
pub open spec fn last_id(entries: Seq<StreamEntryView>) -> Option<Seq<char>> {
    if entries.len() == 0 {
        None
    } else {
        Some(entries.last().id)
    }
}

/// What a reply holds for the first of its keys: the id of the last entry and
/// the `data` field of each entry. A reply without a key is an error, and so
/// is an entry without a `data` field.
pub open spec fn read_outcome(reply: StreamReplyView) -> Result<
    (Option<Seq<char>>, Seq<WireValueView>),
    ReadError,
> {
    if reply.keys.len() == 0 {
        Err(ReadError::KeyMismatch)
    } else if !all_have_data(reply.keys[0].ids) {
        Err(ReadError::NoData)
    } else {
        Ok((last_id(reply.keys[0].ids), data_of(reply.keys[0].ids)))
    }
}

/// The view of what `read_logs` gives.
pub open spec fn read_view(read: Result<(Option<String>, Vec<WireValue>), ReadError>) -> Result<
    (Option<Seq<char>>, Seq<WireValueView>),
    ReadError,
> {
    match read {
        Ok((id, values)) => Ok((option_view(id), views(values@))),
        Err(error) => Err(error),
    }
}

/// Takes from a reply the id of the last entry and the `data` field of each
/// entry, for the first of its keys.
pub fn read_logs(reply: &StreamReply) -> (read: Result<(Option<String>, Vec<WireValue>), ReadError>)
    ensures
        read_view(read) == read_outcome(reply@),
{
    if reply.keys.len() == 0 {
        return Err(ReadError::KeyMismatch);
    }
    let entries = &reply.keys[0].ids;
    let ghost entry_views = reply@.keys[0].ids;
    assert(entry_views == views(entries@));
    let mut values: Vec<WireValue> = Vec::new();
    let mut i: usize = 0;
    while i < entries.len()
        invariant
            i <= entries.len(),
            entry_views == views(entries@),
            reply@.keys.len() > 0,
            entry_views == reply@.keys[0].ids,
            values.len() == i,
            forall|k: int| 0 <= k < i ==> (#[trigger] entry_views[k]).field(data_field()) is Some,
            forall|k: int|
                0 <= k < i ==> (#[trigger] values[k])@ == entry_views[k].field(data_field())->0,
        decreases entries.len() - i,
    {
        assert(entry_views[i as int] == entries[i as int]@);
        match entries[i].field("data") {
            Some(value) => {
                values.push(value.clone());
            },
            None => {
                assert(entry_views[i as int].field(data_field()) is None);
                return Err(ReadError::NoData);
            },
        }
        i += 1;
    }
    let id = if entries.len() == 0 {
        None
    } else {
        assert(entry_views.last() == entries[entries.len() - 1]@);
        Some(entries[entries.len() - 1].id.clone())
    };
    assert(views(values@) =~= data_of(entry_views));
    Ok((id, values))
}

/// Whether each of the values is bytes.
pub open spec fn all_binary(values: Seq<WireValueView>) -> bool {
    forall|i: int| 0 <= i < values.len() ==> (#[trigger] values[i]) is BulkString
}

/// The bytes of each of the values, in their order; an error if one of them
/// is not bytes.
pub open spec fn payloads_of(values: Seq<WireValueView>) -> Result<Seq<Seq<u8>>, ReadError> {
    if all_binary(values) {
        Ok(Seq::new(values.len(), |i: int| values[i]->BulkString_0))
    } else {
        Err(ReadError::NotBinary)
    }
}

/// The view of what `binary_payloads` gives.
pub open spec fn payloads_view(payloads: Result<Vec<Vec<u8>>, ReadError>) -> Result<
    Seq<Seq<u8>>,
    ReadError,
> {
    match payloads {
        Ok(payloads) => Ok(views(payloads@)),
        Err(error) => Err(error),
    }
}

/// Takes the bytes out of each value; fails if one of them is not bytes.
pub fn binary_payloads(values: Vec<WireValue>) -> (payloads: Result<Vec<Vec<u8>>, ReadError>)
    ensures
        payloads_view(payloads) == payloads_of(views(values@)),
{
    let ghost value_views = views(values@);
    let mut payloads: Vec<Vec<u8>> = Vec::new();
    let mut i: usize = 0;
    while i < values.len()
        invariant
            i <= values.len(),
            value_views == views(values@),
            payloads.len() == i,
            forall|k: int| 0 <= k < i ==> (#[trigger] value_views[k]) is BulkString,
            forall|k: int| 0 <= k < i ==> (#[trigger] payloads[k])@ == value_views[k]->BulkString_0,
        decreases values.len() - i,
    {
        assert(value_views[i as int] == values[i as int]@);
        match &values[i] {
            WireValue::BulkString(bytes) => {
                let copy = bytes.clone();
                assert(copy@ =~= bytes@);
                payloads.push(copy);
            },
            _ => {
                assert(!(value_views[i as int] is BulkString));
                return Err(ReadError::NotBinary);
            },
        }
        i += 1;
    }
    assert(views(payloads@) =~= payloads_of(value_views)->Ok_0);
    Ok(payloads)
}

/// The envelope that each tree holds, in their order; an error if one of the
/// payloads gave no tree, or one of the trees holds no envelope.
pub open spec fn envelopes_of(trees: Seq<Option<JsonModel>>) -> Result<
    Seq<LogMessagePackView>,
    ReadError,
> {
    if forall|i: int| 0 <= i < trees.len() ==> holds_envelope(#[trigger] trees[i]) {
        Ok(Seq::new(trees.len(), |i: int| LogMessagePackView::from_json(trees[i]->0)->0))
    } else {
        Err(ReadError::Undecodable)
    }
}

/// Whether a payload gave a tree that holds an envelope.
pub open spec fn holds_envelope(tree: Option<JsonModel>) -> bool {
    tree is Some && LogMessagePackView::from_json(tree->0) is Some
}

/// The view of what `process_data` gives.
pub open spec fn envelopes_view(envelopes: Result<Vec<LogMessagePack>, ReadError>) -> Result<
    Seq<LogMessagePackView>,
    ReadError,
> {
    match envelopes {
        Ok(envelopes) => Ok(views(envelopes@)),
        Err(error) => Err(error),
    }
}

/// Reads the envelope out of each payload's tree: all of them, or none. A
/// payload whose bytes gave no tree stands in `trees` as `None`.
pub fn process_data(trees: &Vec<Option<Json>>) -> (envelopes: Result<
    Vec<LogMessagePack>,
    ReadError,
>)
    ensures
        envelopes_view(envelopes) == envelopes_of(option_views(trees@)),
{
    let ghost tree_views = option_views(trees@);
    let mut envelopes: Vec<LogMessagePack> = Vec::new();
    let mut i: usize = 0;
    while i < trees.len()
        invariant
            i <= trees.len(),
            tree_views == option_views(trees@),
            envelopes.len() == i,
            forall|k: int| 0 <= k < i ==> holds_envelope(#[trigger] tree_views[k]),
            forall|k: int|
                0 <= k < i ==> (#[trigger] envelopes[k])@ == LogMessagePackView::from_json(
                    tree_views[k]->0,
                )->0,
        decreases trees.len() - i,
    {
        assert(tree_views[i as int] == option_view(trees[i as int]));
        let envelope = match &trees[i] {
            Some(tree) => LogMessagePack::from_json(tree),
            None => None,
        };
        match envelope {
            Some(envelope) => {
                envelopes.push(envelope);
            },
            None => {
                assert(!holds_envelope(tree_views[i as int]));
                return Err(ReadError::Undecodable);
            },
        }
        i += 1;
    }
    assert(views(envelopes@) =~= envelopes_of(tree_views)->Ok_0);
    Ok(envelopes)
}

/// The log message of each envelope, in their order.
pub open spec fn records_of(envelopes: Seq<LogMessagePackView>) -> Seq<LogMsgView> {
    Seq::new(envelopes.len(), |i: int| envelopes[i].bec_codec.data.log_msg)
}

/// Takes the log message out of each envelope.
pub fn extract_records(messages: Vec<LogMessagePack>) -> (records: Vec<LogMsg>)
    ensures
        views(records@) == records_of(views(messages@)),
{
    let ghost all = messages@;
    let mut records: Vec<LogMsg> = Vec::new();
    for pack in it: messages
        invariant
            it.seq() == all,
            records.len() == it.index(),
            forall|k: int|
                0 <= k < it.index() ==> (#[trigger] records[k])@ == all[k]@.bec_codec.data.log_msg,
    {
        records.push(pack.bec_codec.data.log_msg);
    }
    assert(views(records@) =~= records_of(views(all)));
    records
}

/// The record that stands for a read cycle whose entries could not be made
/// into log messages: of severity `ERROR`, with a fixed message, and empty or
/// zero in every other part.
pub open spec fn sentinel_record() -> LogRecordView {
    LogRecordView {
        elapsed: ElapsedView {
            repr: Seq::empty(),
            seconds: Number::Real(Binary64 { bits: 0 }),
        },
        exception: None,
        extra: JsonModel::Null,
        file: FileView { name: Seq::empty(), path: Seq::empty() },
        function: Seq::empty(),
        level: LogLevelView { icon: Seq::empty(), name: "ERROR"@, no: 100 },
        line: 0,
        message: "Error processing log messages from Redis!"@,
        module: Seq::empty(),
        name: Seq::empty(),
        process: NameIdView { name: Seq::empty(), id: 0 },
        thread: NameIdView { name: Seq::empty(), id: 0 },
        time: TimestampView {
            repr: Seq::empty(),
            timestamp: Number::Real(Binary64 { bits: 0 }),
        },
    }
}

/// The log message that carries the sentinel record.
pub open spec fn sentinel_msg() -> LogMsgView {
    LogMsgView { record: sentinel_record(), service_name: Seq::empty(), text: Seq::empty() }
}

/// The envelope of the sentinel record.
pub open spec fn sentinel() -> LogMessagePackView {
    LogMessagePackView {
        bec_codec: LogMessagePackInternalView {
            encoder_name: Seq::empty(),
            type_label: Seq::empty(),
            data: LogMessageView {
                log_type: Seq::empty(),
                log_msg: sentinel_msg(),
                metadata: JsonModel::Null,
            },
        },
    }
}

/// Makes the envelope that stands for a read cycle whose entries could not
/// be made into log messages.
pub fn error_log_item() -> (pack: LogMessagePack)
    ensures
        pack@ == sentinel(),
        pack@.bec_codec.data.log_msg.record.level.name == "ERROR"@,
        pack@.bec_codec.data.log_msg.record.message == "Error processing log messages from Redis!"@,
{
    LogMessagePack {
        bec_codec: LogMessagePackInternal {
            encoder_name: String::new(),
            type_label: String::new(),
            data: LogMessage {
                log_type: String::new(),
                log_msg: LogMsg {
                    record: LogRecord {
                        elapsed: Elapsed {
                            repr: String::new(),
                            seconds: Number::Real(Binary64 { bits: 0 }),
                        },
                        exception: None,
                        extra: Json::Null,
                        file: File { name: String::new(), path: String::new() },
                        function: String::new(),
                        level: LogLevel {
                            icon: String::new(),
                            name: String::from_str("ERROR"),
                            no: 100,
                        },
                        line: 0,
                        message: String::from_str("Error processing log messages from Redis!"),
                        module: String::new(),
                        name: String::new(),
                        process: NameId { name: String::new(), id: 0 },
                        thread: NameId { name: String::new(), id: 0 },
                        time: Timestamp {
                            repr: String::new(),
                            timestamp: Number::Real(Binary64 { bits: 0 }),
                        },
                    },
                    service_name: String::new(),
                    text: String::new(),
                },
                metadata: Json::Null,
            },
        },
    }
}

} // verus!
