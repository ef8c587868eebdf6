//! How records and envelopes are written as structured data, and how they are
//! read back from it.
//!
//! A record is written as an object with one field for each of its parts.
//! It is read from either of the two forms in which an envelope carries it:
//! from an object, where each part is looked up by its name and all other
//! fields are ignored, and from a list, where each part stands at its place
//! in the order of the parts and all further items are ignored. Reading
//! fails when a required part is missing or holds a value of another kind.
//! Two parts may be missing: the exception of a record, which is then none,
//! and the rendered text of a log message, which is then empty.

use crate::json::{
    count_field, field_of, lemma_first_field_at, lemma_part_is_well_formed, text_field, Json,
    JsonModel,
};
use crate::log_msg::{
    Elapsed, ElapsedView, File, FileView, LogLevel, LogLevelView, LogMessage, LogMessagePack,
    LogMessagePackInternal, LogMessagePackInternalView, LogMessagePackView, LogMessageView, LogMsg,
    LogMsgView, LogRecord, LogRecordView, NameId, NameIdView, Timestamp, TimestampView,
};
use crate::number::Number;
use crate::views::{distinct_names, option_view};
use vstd::prelude::*;

verus! {

/// The text that a field holds.
pub open spec fn text_in(field: Option<JsonModel>) -> Option<Seq<char>> {
    match field {
        Some(JsonModel::Text(text)) => Some(text),
        _ => None,
    }
}

/// The text that an optional field holds: the empty text where the field is
/// missing or null.
pub open spec fn optional_text_in(field: Option<JsonModel>) -> Option<Seq<char>> {
    match field {
        None => Some(Seq::empty()),
        Some(JsonModel::Null) => Some(Seq::empty()),
        Some(JsonModel::Text(text)) => Some(text),
        _ => None,
    }
}

/// The number that a field holds.
pub open spec fn number_in(field: Option<JsonModel>) -> Option<Number> {
    match field {
        Some(JsonModel::Number(number)) => Some(number),
        _ => None,
    }
}

/// The count that a field holds: an unsigned integer that fits the machine's
/// word.
pub open spec fn count_in(field: Option<JsonModel>) -> Option<usize> {
    match field {
        Some(JsonModel::Number(Number::Unsigned(count))) => if count <= usize::MAX {
            Some(count as usize)
        } else {
            None
        },
        _ => None,
    }
}

/// The payload that an optional field holds: none where the field is missing
/// or null.
pub open spec fn optional_in(field: Option<JsonModel>) -> Option<JsonModel> {
    match field {
        Some(JsonModel::Null) => None,
        other => other,
    }
}

fn optional_text_of(field: Option<&Json>) -> (text: Option<String>)
    ensures
        option_view(text) == optional_text_in(option_view(field)),
{
    match field {
        None => Some(String::new()),
        Some(Json::Null) => Some(String::new()),
        Some(Json::Text(text)) => Some(text.clone()),
        _ => None,
    }
}

fn text_of(field: Option<&Json>) -> (text: Option<String>)
    ensures
        option_view(text) == text_in(option_view(field)),
{
    match field {
        Some(Json::Text(text)) => Some(text.clone()),
        _ => None,
    }
}

fn number_of(field: Option<&Json>) -> (number: Option<Number>)
    ensures
        number == number_in(option_view(field)),
{
    match field {
        Some(Json::Number(number)) => Some(*number),
        _ => None,
    }
}

fn count_of(field: Option<&Json>) -> (count: Option<usize>)
    ensures
        count == count_in(option_view(field)),
{
    match field {
        Some(Json::Number(Number::Unsigned(count))) => if *count <= usize::MAX as u64 {
            Some(*count as usize)
        } else {
            None
        },
        _ => None,
    }
}

fn payload_of(field: Option<&Json>) -> (payload: Option<Json>)
    ensures
        option_view(payload) == option_view(field),
{
    match field {
        Some(value) => Some(value.clone()),
        None => None,
    }
}

fn optional_of(field: Option<&Json>) -> (payload: Option<Json>)
    ensures
        option_view(payload) == optional_in(option_view(field)),
{
    match field {
        Some(Json::Null) => None,
        Some(value) => Some(value.clone()),
        None => None,
    }
}

impl ElapsedView {
    /// The object that an elapsed time is written as.
    pub open spec fn to_json(self) -> JsonModel {
        JsonModel::Object(
            seq![
                ("repr"@, JsonModel::Text(self.repr)),
                ("seconds"@, JsonModel::Number(self.seconds)),
            ],
        )
    }

    /// An elapsed time as it is read from an object or a list; none if a part is missing
    /// or of another kind.
    pub open spec fn from_json(json: JsonModel) -> Option<ElapsedView> {
        let repr = text_in(json.part("repr"@, 0));
        let seconds = number_in(json.part("seconds"@, 1));
        if repr is Some && seconds is Some {
            Some(ElapsedView { repr: repr->0, seconds: seconds->0 })
        } else {
            None
        }
    }
}

impl Elapsed {
    /// Writes an elapsed time as an object.
    pub fn to_json(&self) -> (json: Json)
        ensures
            json@ == self@.to_json(),
    {
        let mut fields: Vec<(String, Json)> = Vec::new();
        fields.push(text_field("repr", &self.repr));
        fields.push(field_of("seconds", Json::Number(self.seconds)));
        let json = Json::object(fields);
        assert(json@->Object_0 =~= self@.to_json()->Object_0);
        json
    }

    /// Reads an elapsed time from an object or a list.
    pub fn from_json(json: &Json) -> (elapsed: Option<Elapsed>)
        ensures
            option_view(elapsed) == ElapsedView::from_json(json@),
    {
        let repr = text_of(json.part("repr", 0));
        let seconds = number_of(json.part("seconds", 1));
        match (repr, seconds) {
            (Some(repr), Some(seconds)) => Some(Elapsed { repr, seconds }),
            _ => None,
        }
    }
}

impl FileView {
    /// The object that a source file is written as.
    pub open spec fn to_json(self) -> JsonModel {
        JsonModel::Object(
            seq![("name"@, JsonModel::Text(self.name)), ("path"@, JsonModel::Text(self.path))],
        )
    }

    /// A source file as it is read from an object or a list; none if a part is missing
    /// or of another kind.
    pub open spec fn from_json(json: JsonModel) -> Option<FileView> {
        let name = text_in(json.part("name"@, 0));
        let path = text_in(json.part("path"@, 1));
        if name is Some && path is Some {
            Some(FileView { name: name->0, path: path->0 })
        } else {
            None
        }
    }
}

impl File {
    /// Writes a source file as an object.
    pub fn to_json(&self) -> (json: Json)
        ensures
            json@ == self@.to_json(),
    {
        let mut fields: Vec<(String, Json)> = Vec::new();
        fields.push(text_field("name", &self.name));
        fields.push(text_field("path", &self.path));
        let json = Json::object(fields);
        assert(json@->Object_0 =~= self@.to_json()->Object_0);
        json
    }

    /// Reads a source file from an object or a list.
    pub fn from_json(json: &Json) -> (file: Option<File>)
        ensures
            option_view(file) == FileView::from_json(json@),
    {
        let name = text_of(json.part("name", 0));
        let path = text_of(json.part("path", 1));
        match (name, path) {
            (Some(name), Some(path)) => Some(File { name, path }),
            _ => None,
        }
    }
}

impl LogLevelView {
    /// The object that a severity is written as.
    pub open spec fn to_json(self) -> JsonModel {
        JsonModel::Object(
            seq![
                ("icon"@, JsonModel::Text(self.icon)),
                ("name"@, JsonModel::Text(self.name)),
                ("no"@, JsonModel::Number(Number::Unsigned(self.no as u64))),
            ],
        )
    }

    /// A severity as it is read from an object or a list; none if a part is missing
    /// or of another kind.
    pub open spec fn from_json(json: JsonModel) -> Option<LogLevelView> {
        let icon = text_in(json.part("icon"@, 0));
        let name = text_in(json.part("name"@, 1));
        let no = count_in(json.part("no"@, 2));
        if icon is Some && name is Some && no is Some {
            Some(LogLevelView { icon: icon->0, name: name->0, no: no->0 })
        } else {
            None
        }
    }
}

impl LogLevel {
    /// Writes a severity as an object.
    pub fn to_json(&self) -> (json: Json)
        ensures
            json@ == self@.to_json(),
    {
        let mut fields: Vec<(String, Json)> = Vec::new();
        fields.push(text_field("icon", &self.icon));
        fields.push(text_field("name", &self.name));
        fields.push(count_field("no", self.no));
        let json = Json::object(fields);
        assert(json@->Object_0 =~= self@.to_json()->Object_0);
        json
    }

    /// Reads a severity from an object or a list.
    pub fn from_json(json: &Json) -> (level: Option<LogLevel>)
        ensures
            option_view(level) == LogLevelView::from_json(json@),
    {
        let icon = text_of(json.part("icon", 0));
        let name = text_of(json.part("name", 1));
        let no = count_of(json.part("no", 2));
        match (icon, name, no) {
            (Some(icon), Some(name), Some(no)) => Some(LogLevel { icon, name, no }),
            _ => None,
        }
    }
}

impl NameIdView {
    /// The object that an identity is written as.
    pub open spec fn to_json(self) -> JsonModel {
        JsonModel::Object(
            seq![
                ("name"@, JsonModel::Text(self.name)),
                ("id"@, JsonModel::Number(Number::Unsigned(self.id as u64))),
            ],
        )
    }

    /// An identity as it is read from an object or a list; none if a part is missing
    /// or of another kind.
    pub open spec fn from_json(json: JsonModel) -> Option<NameIdView> {
        let name = text_in(json.part("name"@, 0));
        let id = count_in(json.part("id"@, 1));
        if name is Some && id is Some {
            Some(NameIdView { name: name->0, id: id->0 })
        } else {
            None
        }
    }
}

impl NameId {
    /// Writes an identity as an object.
    pub fn to_json(&self) -> (json: Json)
        ensures
            json@ == self@.to_json(),
    {
        let mut fields: Vec<(String, Json)> = Vec::new();
        fields.push(text_field("name", &self.name));
        fields.push(count_field("id", self.id));
        let json = Json::object(fields);
        assert(json@->Object_0 =~= self@.to_json()->Object_0);
        json
    }

    /// Reads an identity from an object or a list.
    pub fn from_json(json: &Json) -> (identity: Option<NameId>)
        ensures
            option_view(identity) == NameIdView::from_json(json@),
    {
        let name = text_of(json.part("name", 0));
        let id = count_of(json.part("id", 1));
        match (name, id) {
            (Some(name), Some(id)) => Some(NameId { name, id }),
            _ => None,
        }
    }
}

impl TimestampView {
    /// The object that a time is written as.
    pub open spec fn to_json(self) -> JsonModel {
        JsonModel::Object(
            seq![
                ("repr"@, JsonModel::Text(self.repr)),
                ("timestamp"@, JsonModel::Number(self.timestamp)),
            ],
        )
    }

    /// A time as it is read from an object or a list; none if a part is missing
    /// or of another kind.
    pub open spec fn from_json(json: JsonModel) -> Option<TimestampView> {
        let repr = text_in(json.part("repr"@, 0));
        let timestamp = number_in(json.part("timestamp"@, 1));
        if repr is Some && timestamp is Some {
            Some(TimestampView { repr: repr->0, timestamp: timestamp->0 })
        } else {
            None
        }
    }
}

impl Timestamp {
    /// Writes a time as an object.
    pub fn to_json(&self) -> (json: Json)
        ensures
            json@ == self@.to_json(),
    {
        let mut fields: Vec<(String, Json)> = Vec::new();
        fields.push(text_field("repr", &self.repr));
        fields.push(field_of("timestamp", Json::Number(self.timestamp)));
        let json = Json::object(fields);
        assert(json@->Object_0 =~= self@.to_json()->Object_0);
        json
    }

    /// Reads a time from an object or a list.
    pub fn from_json(json: &Json) -> (time: Option<Timestamp>)
        ensures
            option_view(time) == TimestampView::from_json(json@),
    {
        let repr = text_of(json.part("repr", 0));
        let timestamp = number_of(json.part("timestamp", 1));
        match (repr, timestamp) {
            (Some(repr), Some(timestamp)) => Some(Timestamp { repr, timestamp }),
            _ => None,
        }
    }
}

impl LogRecordView {
    /// The object that a record is written as.
    pub open spec fn to_json(self) -> JsonModel {
        JsonModel::Object(
            seq![
                ("elapsed"@, self.elapsed.to_json()),
                (
                    "exception"@,
                    match self.exception {
                        Some(payload) => payload,
                        None => JsonModel::Null,
                    },
                ),
                ("extra"@, self.extra),
                ("file"@, self.file.to_json()),
                ("function"@, JsonModel::Text(self.function)),
                ("level"@, self.level.to_json()),
                ("line"@, JsonModel::Number(Number::Unsigned(self.line as u64))),
                ("message"@, JsonModel::Text(self.message)),
                ("module"@, JsonModel::Text(self.module)),
                ("name"@, JsonModel::Text(self.name)),
                ("process"@, self.process.to_json()),
                ("thread"@, self.thread.to_json()),
                ("time"@, self.time.to_json()),
            ],
        )
    }

    /// A record as it is read from an object or a list; none if a part is missing
    /// or of another kind.
    pub open spec fn from_json(json: JsonModel) -> Option<LogRecordView> {
        let elapsed = match json.part("elapsed"@, 0) {
            Some(part) => ElapsedView::from_json(part),
            None => None,
        };
        let exception = optional_in(json.part("exception"@, 1));
        let extra = json.part("extra"@, 2);
        let file = match json.part("file"@, 3) {
            Some(part) => FileView::from_json(part),
            None => None,
        };
        let function = text_in(json.part("function"@, 4));
        let level = match json.part("level"@, 5) {
            Some(part) => LogLevelView::from_json(part),
            None => None,
        };
        let line = count_in(json.part("line"@, 6));
        let message = text_in(json.part("message"@, 7));
        let module = text_in(json.part("module"@, 8));
        let name = text_in(json.part("name"@, 9));
        let process = match json.part("process"@, 10) {
            Some(part) => NameIdView::from_json(part),
            None => None,
        };
        let thread = match json.part("thread"@, 11) {
            Some(part) => NameIdView::from_json(part),
            None => None,
        };
        let time = match json.part("time"@, 12) {
            Some(part) => TimestampView::from_json(part),
            None => None,
        };
        if elapsed is Some && extra is Some && file is Some && function is Some && level is Some
            && line is Some && message is Some && module is Some && name is Some && process is Some
            && thread is Some && time is Some {
            Some(
                LogRecordView {
                    elapsed: elapsed->0,
                    exception,
                    extra: extra->0,
                    file: file->0,
                    function: function->0,
                    level: level->0,
                    line: line->0,
                    message: message->0,
                    module: module->0,
                    name: name->0,
                    process: process->0,
                    thread: thread->0,
                    time: time->0,
                },
            )
        } else {
            None
        }
    }
}

impl LogRecord {
    /// Writes a record as an object.
    pub fn to_json(&self) -> (json: Json)
        ensures
            json@ == self@.to_json(),
    {
        let exception = match &self.exception {
            Some(payload) => payload.clone(),
            None => Json::Null,
        };
        let mut fields: Vec<(String, Json)> = Vec::new();
        fields.push(field_of("elapsed", self.elapsed.to_json()));
        fields.push(field_of("exception", exception));
        fields.push(field_of("extra", self.extra.clone()));
        fields.push(field_of("file", self.file.to_json()));
        fields.push(text_field("function", &self.function));
        fields.push(field_of("level", self.level.to_json()));
        fields.push(count_field("line", self.line));
        fields.push(text_field("message", &self.message));
        fields.push(text_field("module", &self.module));
        fields.push(text_field("name", &self.name));
        fields.push(field_of("process", self.process.to_json()));
        fields.push(field_of("thread", self.thread.to_json()));
        fields.push(field_of("time", self.time.to_json()));
        let json = Json::object(fields);
        assert(json@->Object_0 =~= self@.to_json()->Object_0);
        json
    }

    /// Reads a record from an object or a list.
    pub fn from_json(json: &Json) -> (record: Option<LogRecord>)
        ensures
            option_view(record) == LogRecordView::from_json(json@),
    {
        let elapsed = match json.part("elapsed", 0) {
            Some(part) => Elapsed::from_json(part),
            None => None,
        };
        let exception = optional_of(json.part("exception", 1));
        let extra = payload_of(json.part("extra", 2));
        let file = match json.part("file", 3) {
            Some(part) => File::from_json(part),
            None => None,
        };
        let function = text_of(json.part("function", 4));
        let level = match json.part("level", 5) {
            Some(part) => LogLevel::from_json(part),
            None => None,
        };
        let line = count_of(json.part("line", 6));
        let message = text_of(json.part("message", 7));
        let module = text_of(json.part("module", 8));
        let name = text_of(json.part("name", 9));
        let process = match json.part("process", 10) {
            Some(part) => NameId::from_json(part),
            None => None,
        };
        let thread = match json.part("thread", 11) {
            Some(part) => NameId::from_json(part),
            None => None,
        };
        let time = match json.part("time", 12) {
            Some(part) => Timestamp::from_json(part),
            None => None,
        };
        match (elapsed, extra, file, function, level, line) {
            (Some(elapsed), Some(extra), Some(file), Some(function), Some(level), Some(line)) => {
                match (message, module, name, process, thread, time) {
                    (
                        Some(message),
                        Some(module),
                        Some(name),
                        Some(process),
                        Some(thread),
                        Some(time),
                    ) => Some(
                        LogRecord {
                            elapsed,
                            exception,
                            extra,
                            file,
                            function,
                            level,
                            line,
                            message,
                            module,
                            name,
                            process,
                            thread,
                            time,
                        },
                    ),
                    _ => None,
                }
            },
            _ => None,
        }
    }
}

impl LogMsgView {
    /// A log message as it is read from an object or a list; none if a part is missing
    /// or of another kind.
    pub open spec fn from_json(json: JsonModel) -> Option<LogMsgView> {
        let record = match json.part("record"@, 0) {
            Some(part) => LogRecordView::from_json(part),
            None => None,
        };
        let service_name = text_in(json.part("service_name"@, 1));
        let text = optional_text_in(json.part("text"@, 2));
        if record is Some && service_name is Some && text is Some {
            Some(LogMsgView { record: record->0, service_name: service_name->0, text: text->0 })
        } else {
            None
        }
    }
}

impl LogMsg {
    /// Reads a log message from an object or a list.
    pub fn from_json(json: &Json) -> (msg: Option<LogMsg>)
        ensures
            option_view(msg) == LogMsgView::from_json(json@),
    {
        let record = match json.part("record", 0) {
            Some(part) => LogRecord::from_json(part),
            None => None,
        };
        let service_name = text_of(json.part("service_name", 1));
        let text = optional_text_of(json.part("text", 2));
        match (record, service_name, text) {
            (Some(record), Some(service_name), Some(text)) => Some(
                LogMsg { record, service_name, text },
            ),
            _ => None,
        }
    }
}

impl LogMessageView {
    /// A payload as it is read from an object or a list; none if a part is missing
    /// or of another kind.
    pub open spec fn from_json(json: JsonModel) -> Option<LogMessageView> {
        let log_type = text_in(json.part("log_type"@, 0));
        let log_msg = match json.part("log_msg"@, 1) {
            Some(part) => LogMsgView::from_json(part),
            None => None,
        };
        let metadata = json.part("metadata"@, 2);
        if log_type is Some && log_msg is Some && metadata is Some {
            Some(
                LogMessageView {
                    log_type: log_type->0,
                    log_msg: log_msg->0,
                    metadata: metadata->0,
                },
            )
        } else {
            None
        }
    }
}

impl LogMessage {
    /// Reads a payload from an object or a list.
    pub fn from_json(json: &Json) -> (message: Option<LogMessage>)
        ensures
            option_view(message) == LogMessageView::from_json(json@),
    {
        let log_type = text_of(json.part("log_type", 0));
        let log_msg = match json.part("log_msg", 1) {
            Some(part) => LogMsg::from_json(part),
            None => None,
        };
        let metadata = payload_of(json.part("metadata", 2));
        match (log_type, log_msg, metadata) {
            (Some(log_type), Some(log_msg), Some(metadata)) => Some(
                LogMessage { log_type, log_msg, metadata },
            ),
            _ => None,
        }
    }
}

impl LogMessagePackInternalView {
    /// The inside of an envelope as it is read from an object or a list; none if a part is missing
    /// or of another kind.
    pub open spec fn from_json(json: JsonModel) -> Option<LogMessagePackInternalView> {
        let encoder_name = text_in(json.part("encoder_name"@, 0));
        let type_label = text_in(json.part("type_name"@, 1));
        let data = match json.part("data"@, 2) {
            Some(part) => LogMessageView::from_json(part),
            None => None,
        };
        if encoder_name is Some && type_label is Some && data is Some {
            Some(
                LogMessagePackInternalView {
                    encoder_name: encoder_name->0,
                    type_label: type_label->0,
                    data: data->0,
                },
            )
        } else {
            None
        }
    }
}

impl LogMessagePackInternal {
    /// Reads the inside of an envelope from an object or a list.
    pub fn from_json(json: &Json) -> (wrapped: Option<LogMessagePackInternal>)
        ensures
            option_view(wrapped) == LogMessagePackInternalView::from_json(json@),
    {
        let encoder_name = text_of(json.part("encoder_name", 0));
        let type_label = text_of(json.part("type_name", 1));
        let data = match json.part("data", 2) {
            Some(part) => LogMessage::from_json(part),
            None => None,
        };
        match (encoder_name, type_label, data) {
            (Some(encoder_name), Some(type_label), Some(data)) => Some(
                LogMessagePackInternal { encoder_name, type_label, data },
            ),
            _ => None,
        }
    }
}

impl LogMessagePackView {
    /// The envelope that an object holds under the key `__bec_codec__`, or a
    /// list at its first place.
    pub open spec fn from_json(json: JsonModel) -> Option<LogMessagePackView> {
        match json.part("__bec_codec__"@, 0) {
            Some(part) => match LogMessagePackInternalView::from_json(part) {
                Some(bec_codec) => Some(LogMessagePackView { bec_codec }),
                None => None,
            },
            None => None,
        }
    }
}

impl LogMessagePack {
    /// Reads the envelope that an object holds under the key `__bec_codec__`,
    /// or a list at its first place.
    pub fn from_json(json: &Json) -> (pack: Option<LogMessagePack>)
        ensures
            option_view(pack) == LogMessagePackView::from_json(json@),
    {
        match json.part("__bec_codec__", 0) {
            Some(part) => match LogMessagePackInternal::from_json(part) {
                Some(bec_codec) => Some(LogMessagePack { bec_codec }),
                None => None,
            },
            None => None,
        }
    }
}

/// The first character and the length of a field's name: enough to tell the
/// names of one object's fields apart.
pub open spec fn mark(name: Seq<char>) -> (char, nat) {
    (name[0], name.len())
}

/// An elapsed time that is written out and read again is the same.
pub proof fn lemma_elapsed_reads_back(elapsed: ElapsedView)
    ensures
        ElapsedView::from_json(elapsed.to_json()) == Some(elapsed),
{
    reveal_strlit("repr");
    reveal_strlit("seconds");
    let fields = elapsed.to_json()->Object_0;
    assert(fields[0].0 == "repr"@ && mark("repr"@) == ('r', 4nat));
    assert(fields[1].0 == "seconds"@ && mark("seconds"@) == ('s', 7nat));
    lemma_first_field_at(fields, 0);
    lemma_first_field_at(fields, 1);
}

/// A source file that is written out and read again is the same.
pub proof fn lemma_file_reads_back(file: FileView)
    ensures
        FileView::from_json(file.to_json()) == Some(file),
{
    reveal_strlit("name");
    reveal_strlit("path");
    let fields = file.to_json()->Object_0;
    assert(fields[0].0 == "name"@ && mark("name"@) == ('n', 4nat));
    assert(fields[1].0 == "path"@ && mark("path"@) == ('p', 4nat));
    lemma_first_field_at(fields, 0);
    lemma_first_field_at(fields, 1);
}

/// A severity that is written out and read again is the same.
pub proof fn lemma_level_reads_back(level: LogLevelView)
    ensures
        LogLevelView::from_json(level.to_json()) == Some(level),
{
    reveal_strlit("icon");
    reveal_strlit("name");
    reveal_strlit("no");
    let fields = level.to_json()->Object_0;
    assert(fields[0].0 == "icon"@ && mark("icon"@) == ('i', 4nat));
    assert(fields[1].0 == "name"@ && mark("name"@) == ('n', 4nat));
    assert(fields[2].0 == "no"@ && mark("no"@) == ('n', 2nat));
    lemma_first_field_at(fields, 0);
    lemma_first_field_at(fields, 1);
    lemma_first_field_at(fields, 2);
}

/// An identity that is written out and read again is the same.
pub proof fn lemma_identity_reads_back(identity: NameIdView)
    ensures
        NameIdView::from_json(identity.to_json()) == Some(identity),
{
    reveal_strlit("name");
    reveal_strlit("id");
    let fields = identity.to_json()->Object_0;
    assert(fields[0].0 == "name"@ && mark("name"@) == ('n', 4nat));
    assert(fields[1].0 == "id"@ && mark("id"@) == ('i', 2nat));
    lemma_first_field_at(fields, 0);
    lemma_first_field_at(fields, 1);
}

/// A time that is written out and read again is the same.
pub proof fn lemma_time_reads_back(time: TimestampView)
    ensures
        TimestampView::from_json(time.to_json()) == Some(time),
{
    reveal_strlit("repr");
    reveal_strlit("timestamp");
    let fields = time.to_json()->Object_0;
    assert(fields[0].0 == "repr"@ && mark("repr"@) == ('r', 4nat));
    assert(fields[1].0 == "timestamp"@ && mark("timestamp"@) == ('t', 9nat));
    lemma_first_field_at(fields, 0);
    lemma_first_field_at(fields, 1);
}

/// A record that is written out and read again is the same, unless its
/// exception is a null payload: that one is read back as no exception.
pub proof fn lemma_record_reads_back(record: LogRecordView)
    requires
        record.exception != Some(JsonModel::Null),
    ensures
        LogRecordView::from_json(record.to_json()) == Some(record),
{
    reveal_strlit("elapsed");
    reveal_strlit("exception");
    reveal_strlit("extra");
    reveal_strlit("file");
    reveal_strlit("function");
    reveal_strlit("level");
    reveal_strlit("line");
    reveal_strlit("message");
    reveal_strlit("module");
    reveal_strlit("name");
    reveal_strlit("process");
    reveal_strlit("thread");
    reveal_strlit("time");
    let fields = record.to_json()->Object_0;
    assert(fields[0].0 == "elapsed"@ && mark("elapsed"@) == ('e', 7nat));
    assert(fields[1].0 == "exception"@ && mark("exception"@) == ('e', 9nat));
    assert(fields[2].0 == "extra"@ && mark("extra"@) == ('e', 5nat));
    assert(fields[3].0 == "file"@ && mark("file"@) == ('f', 4nat));
    assert(fields[4].0 == "function"@ && mark("function"@) == ('f', 8nat));
    assert(fields[5].0 == "level"@ && mark("level"@) == ('l', 5nat));
    assert(fields[6].0 == "line"@ && mark("line"@) == ('l', 4nat));
    assert(fields[7].0 == "message"@ && mark("message"@) == ('m', 7nat));
    assert(fields[8].0 == "module"@ && mark("module"@) == ('m', 6nat));
    assert(fields[9].0 == "name"@ && mark("name"@) == ('n', 4nat));
    assert(fields[10].0 == "process"@ && mark("process"@) == ('p', 7nat));
    assert(fields[11].0 == "thread"@ && mark("thread"@) == ('t', 6nat));
    assert(fields[12].0 == "time"@ && mark("time"@) == ('t', 4nat));
    lemma_first_field_at(fields, 0);
    lemma_first_field_at(fields, 1);
    lemma_first_field_at(fields, 2);
    lemma_first_field_at(fields, 3);
    lemma_first_field_at(fields, 4);
    lemma_first_field_at(fields, 5);
    lemma_first_field_at(fields, 6);
    lemma_first_field_at(fields, 7);
    lemma_first_field_at(fields, 8);
    lemma_first_field_at(fields, 9);
    lemma_first_field_at(fields, 10);
    lemma_first_field_at(fields, 11);
    lemma_first_field_at(fields, 12);
    lemma_elapsed_reads_back(record.elapsed);
    lemma_file_reads_back(record.file);
    lemma_level_reads_back(record.level);
    lemma_identity_reads_back(record.process);
    lemma_identity_reads_back(record.thread);
    lemma_time_reads_back(record.time);
}

/// The round trip of a record: one that was read from structured data, then
/// written out and read again, is the record that was read first.
pub proof fn lemma_record_roundtrip(json: JsonModel)
    requires
        LogRecordView::from_json(json) is Some,
    ensures
        LogRecordView::from_json(LogRecordView::from_json(json)->0.to_json())
            == LogRecordView::from_json(json),
{
    lemma_record_reads_back(LogRecordView::from_json(json)->0);
}

/// What a record is written as has no name twice in any of its objects, if
/// the payloads that the record carries have none.
pub proof fn lemma_written_record_is_well_formed(record: LogRecordView)
    requires
        record.extra.well_formed(),
        record.exception is Some ==> record.exception->0.well_formed(),
    ensures
        record.to_json().well_formed(),
{
    lemma_parts_are_well_formed(record);
    reveal_strlit("elapsed");
    reveal_strlit("exception");
    reveal_strlit("extra");
    reveal_strlit("file");
    reveal_strlit("function");
    reveal_strlit("level");
    reveal_strlit("line");
    reveal_strlit("message");
    reveal_strlit("module");
    reveal_strlit("name");
    reveal_strlit("process");
    reveal_strlit("thread");
    reveal_strlit("time");
    let fields = record.to_json()->Object_0;
    assert(fields[0].0 == "elapsed"@ && mark("elapsed"@) == ('e', 7nat));
    assert(fields[1].0 == "exception"@ && mark("exception"@) == ('e', 9nat));
    assert(fields[2].0 == "extra"@ && mark("extra"@) == ('e', 5nat));
    assert(fields[3].0 == "file"@ && mark("file"@) == ('f', 4nat));
    assert(fields[4].0 == "function"@ && mark("function"@) == ('f', 8nat));
    assert(fields[5].0 == "level"@ && mark("level"@) == ('l', 5nat));
    assert(fields[6].0 == "line"@ && mark("line"@) == ('l', 4nat));
    assert(fields[7].0 == "message"@ && mark("message"@) == ('m', 7nat));
    assert(fields[8].0 == "module"@ && mark("module"@) == ('m', 6nat));
    assert(fields[9].0 == "name"@ && mark("name"@) == ('n', 4nat));
    assert(fields[10].0 == "process"@ && mark("process"@) == ('p', 7nat));
    assert(fields[11].0 == "thread"@ && mark("thread"@) == ('t', 6nat));
    assert(fields[12].0 == "time"@ && mark("time"@) == ('t', 4nat));
    assert(distinct_names(fields));
    assert(fields[0].1.well_formed());
    assert(fields[1].1.well_formed());
    assert(fields[2].1.well_formed());
    assert(fields[3].1.well_formed());
    assert(fields[4].1.well_formed());
    assert(fields[5].1.well_formed());
    assert(fields[6].1.well_formed());
    assert(fields[7].1.well_formed());
    assert(fields[8].1.well_formed());
    assert(fields[9].1.well_formed());
    assert(fields[10].1.well_formed());
    assert(fields[11].1.well_formed());
    assert(fields[12].1.well_formed());
}

proof fn lemma_parts_are_well_formed(record: LogRecordView)
    ensures
        record.elapsed.to_json().well_formed(),
        record.file.to_json().well_formed(),
        record.level.to_json().well_formed(),
        record.process.to_json().well_formed(),
        record.thread.to_json().well_formed(),
        record.time.to_json().well_formed(),
{
    reveal_strlit("repr");
    reveal_strlit("seconds");
    reveal_strlit("timestamp");
    reveal_strlit("name");
    reveal_strlit("path");
    reveal_strlit("icon");
    reveal_strlit("no");
    reveal_strlit("id");
    let elapsed = record.elapsed.to_json()->Object_0;
    assert(elapsed[0].0 == "repr"@ && mark("repr"@) == ('r', 4nat));
    assert(elapsed[1].0 == "seconds"@ && mark("seconds"@) == ('s', 7nat));
    assert(distinct_names(elapsed));
    assert(elapsed[0].1.well_formed());
    assert(elapsed[1].1.well_formed());
    let file = record.file.to_json()->Object_0;
    assert(file[0].0 == "name"@ && mark("name"@) == ('n', 4nat));
    assert(file[1].0 == "path"@ && mark("path"@) == ('p', 4nat));
    assert(distinct_names(file));
    assert(file[0].1.well_formed());
    assert(file[1].1.well_formed());
    let level = record.level.to_json()->Object_0;
    assert(level[0].0 == "icon"@ && mark("icon"@) == ('i', 4nat));
    assert(level[1].0 == "name"@ && mark("name"@) == ('n', 4nat));
    assert(level[2].0 == "no"@ && mark("no"@) == ('n', 2nat));
    assert(distinct_names(level));
    assert(level[0].1.well_formed());
    assert(level[1].1.well_formed());
    assert(level[2].1.well_formed());
    let process = record.process.to_json()->Object_0;
    assert(process[0].0 == "name"@ && mark("name"@) == ('n', 4nat));
    assert(process[1].0 == "id"@ && mark("id"@) == ('i', 2nat));
    assert(distinct_names(process));
    assert(process[0].1.well_formed());
    assert(process[1].1.well_formed());
    let thread = record.thread.to_json()->Object_0;
    assert(thread[0].0 == "name"@ && mark("name"@) == ('n', 4nat));
    assert(thread[1].0 == "id"@ && mark("id"@) == ('i', 2nat));
    assert(distinct_names(thread));
    assert(thread[0].1.well_formed());
    assert(thread[1].1.well_formed());
    let time = record.time.to_json()->Object_0;
    assert(time[0].0 == "repr"@ && mark("repr"@) == ('r', 4nat));
    assert(time[1].0 == "timestamp"@ && mark("timestamp"@) == ('t', 9nat));
    assert(distinct_names(time));
    assert(time[0].1.well_formed());
    assert(time[1].1.well_formed());
}

/// The payloads of a record that was read from a value without a name twice
/// have no name twice either.
pub proof fn lemma_read_record_is_well_formed(json: JsonModel)
    requires
        json.well_formed(),
        LogRecordView::from_json(json) is Some,
    ensures
        LogRecordView::from_json(json)->0.extra.well_formed(),
        LogRecordView::from_json(json)->0.exception is Some ==> LogRecordView::from_json(
            json,
        )->0.exception->0.well_formed(),
{
    lemma_part_is_well_formed(json, "extra"@, 2);
    if json.part("exception"@, 1) is Some {
        lemma_part_is_well_formed(json, "exception"@, 1);
    }
}

} // verus!
