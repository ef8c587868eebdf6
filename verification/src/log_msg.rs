//! The structured log event and the envelope that carries it.

use crate::json::{Json, JsonModel};
use crate::number::Number;
use crate::views::option_view;
use chrono::TimeZone;
use vstd::prelude::*;

verus! {

/// The earliest instant that can be rendered, in seconds since the Unix
/// epoch: the first second of the year -262143.
pub const EARLIEST_SECONDS: i64 = -8_334_601_228_800;

/// The latest instant that can be rendered, in seconds since the Unix epoch:
/// the last second of the year 262142.
pub const LATEST_SECONDS: i64 = 8_210_266_876_799;

/// The RFC 3339 text, in UTC with the offset written `+00:00`, of the instant
/// that lies `seconds` whole seconds after the Unix epoch.
pub uninterp spec fn rfc3339_utc(seconds: int) -> Seq<char>;

/// Time since the process started.
#[derive(Debug, PartialEq, Clone)]
pub struct Elapsed {
    pub repr: String,
    pub seconds: Number,
}

pub struct ElapsedView {
    pub repr: Seq<char>,
    pub seconds: Number,
}

impl View for Elapsed {
    type V = ElapsedView;

    open spec fn view(&self) -> ElapsedView {
        ElapsedView { repr: self.repr@, seconds: self.seconds }
    }
}

/// A source file.
#[derive(Debug, PartialEq, Clone)]
pub struct File {
    pub name: String,
    pub path: String,
}

pub struct FileView {
    pub name: Seq<char>,
    pub path: Seq<char>,
}

impl View for File {
    type V = FileView;

    open spec fn view(&self) -> FileView {
        FileView { name: self.name@, path: self.path@ }
    }
}

/// A severity.
#[derive(Debug, PartialEq, Clone)]
pub struct LogLevel {
    pub icon: String,
    pub name: String,
    pub no: usize,
}

pub struct LogLevelView {
    pub icon: Seq<char>,
    pub name: Seq<char>,
    pub no: usize,
}

impl View for LogLevel {
    type V = LogLevelView;

    open spec fn view(&self) -> LogLevelView {
        LogLevelView { icon: self.icon@, name: self.name@, no: self.no }
    }
}

/// The identity of a process or of a thread.
#[derive(Debug, PartialEq, Clone)]
pub struct NameId {
    pub name: String,
    pub id: usize,
}

pub struct NameIdView {
    pub name: Seq<char>,
    pub id: usize,
}

impl View for NameId {
    type V = NameIdView;

    open spec fn view(&self) -> NameIdView {
        NameIdView { name: self.name@, id: self.id }
    }
}

/// The time of an event: as it was written, and in seconds since the Unix
/// epoch.
#[derive(Debug, PartialEq, Clone)]
pub struct Timestamp {
    pub repr: String,
    pub timestamp: Number,
}

pub struct TimestampView {
    pub repr: Seq<char>,
    pub timestamp: Number,
}

impl View for Timestamp {
    type V = TimestampView;

    open spec fn view(&self) -> TimestampView {
        TimestampView { repr: self.repr@, timestamp: self.timestamp }
    }
}

impl TimestampView {
    /// The whole seconds since the Unix epoch; a fraction of a second is
    /// dropped.
    pub open spec fn epoch_seconds(self) -> int {
        self.timestamp.whole()
    }

    /// Whether the instant lies in the years that can be rendered.
    pub open spec fn renderable(self) -> bool {
        EARLIEST_SECONDS <= self.epoch_seconds() <= LATEST_SECONDS
    }
}

/// Renders an instant as RFC 3339 text.
///
/// Trusted: calls chrono's `TimeZone::timestamp_opt` on `Utc` with no
/// nanoseconds, unwraps the single result, and calls `DateTime::to_rfc3339`
/// on it. chrono makes a date of the seconds exactly when the year lies
/// between -262143 and 262142, which is what the bounds demand; the text is
/// known to the proofs only by its name.
#[verifier::external_body]
fn utc_rfc3339(seconds: i64) -> (text: String)
    requires
        EARLIEST_SECONDS <= seconds <= LATEST_SECONDS,
    ensures
        text@ == rfc3339_utc(seconds as int),
{
    chrono::Utc.timestamp_opt(seconds, 0).unwrap().to_rfc3339()
}

impl Timestamp {
    /// Whether the instant lies in the years that can be rendered.
    pub fn is_renderable(&self) -> (renderable: bool)
        ensures
            renderable == self@.renderable(),
    {
        let seconds: i64 = self.timestamp.truncate();
        EARLIEST_SECONDS <= seconds && seconds <= LATEST_SECONDS
    }

    /// The instant as RFC 3339 text, to the whole second.
    pub fn as_rfc3339(&self) -> (text: String)
        requires
            self@.renderable(),
        ensures
            text@ == rfc3339_utc(self@.epoch_seconds()),
    {
        utc_rfc3339(self.timestamp.truncate())
    }
}

/// One structured log event.
#[derive(Debug, PartialEq, Clone)]
pub struct LogRecord {
    pub elapsed: Elapsed,
    pub exception: Option<Json>,
    pub extra: Json,
    pub file: File,
    pub function: String,
    pub level: LogLevel,
    pub line: usize,
    pub message: String,
    pub module: String,
    pub name: String,
    pub process: NameId,
    pub thread: NameId,
    pub time: Timestamp,
}

pub struct LogRecordView {
    pub elapsed: ElapsedView,
    pub exception: Option<JsonModel>,
    pub extra: JsonModel,
    pub file: FileView,
    pub function: Seq<char>,
    pub level: LogLevelView,
    pub line: usize,
    pub message: Seq<char>,
    pub module: Seq<char>,
    pub name: Seq<char>,
    pub process: NameIdView,
    pub thread: NameIdView,
    pub time: TimestampView,
}

impl View for LogRecord {
    type V = LogRecordView;

    open spec fn view(&self) -> LogRecordView {
        LogRecordView {
            elapsed: self.elapsed@,
            exception: option_view(self.exception),
            extra: self.extra@,
            file: self.file@,
            function: self.function@,
            level: self.level@,
            line: self.line,
            message: self.message@,
            module: self.module@,
            name: self.name@,
            process: self.process@,
            thread: self.thread@,
            time: self.time@,
        }
    }
}

/// A record with the service it came from and its rendered text: the unit that
/// goes from the reader to the indexer.
#[derive(Debug, PartialEq, Clone)]
pub struct LogMsg {
    pub record: LogRecord,
    pub service_name: String,
    /// The record as rendered text; empty where the message carries none.
    pub text: String,
}

pub struct LogMsgView {
    pub record: LogRecordView,
    pub service_name: Seq<char>,
    pub text: Seq<char>,
}

impl View for LogMsg {
    type V = LogMsgView;

    open spec fn view(&self) -> LogMsgView {
        LogMsgView { record: self.record@, service_name: self.service_name@, text: self.text@ }
    }
}

/// The payload of an envelope.
#[derive(Debug, PartialEq, Clone)]
pub struct LogMessage {
    pub log_type: String,
    pub log_msg: LogMsg,
    pub metadata: Json,
}

pub struct LogMessageView {
    pub log_type: Seq<char>,
    pub log_msg: LogMsgView,
    pub metadata: JsonModel,
}

impl View for LogMessage {
    type V = LogMessageView;

    open spec fn view(&self) -> LogMessageView {
        LogMessageView {
            log_type: self.log_type@,
            log_msg: self.log_msg@,
            metadata: self.metadata@,
        }
    }
}

/// What an envelope wraps: the names of the encoder and of the type, and the
/// payload.
#[derive(Debug, PartialEq, Clone)]
pub struct LogMessagePackInternal {
    pub encoder_name: String,
    pub type_label: String,
    pub data: LogMessage,
}

pub struct LogMessagePackInternalView {
    pub encoder_name: Seq<char>,
    pub type_label: Seq<char>,
    pub data: LogMessageView,
}

impl View for LogMessagePackInternal {
    type V = LogMessagePackInternalView;

    open spec fn view(&self) -> LogMessagePackInternalView {
        LogMessagePackInternalView {
            encoder_name: self.encoder_name@,
            type_label: self.type_label@,
            data: self.data@,
        }
    }
}

/// The envelope in which a stream entry carries a log message.
#[derive(Debug, PartialEq, Clone)]
pub struct LogMessagePack {
    pub bec_codec: LogMessagePackInternal,
}

pub struct LogMessagePackView {
    pub bec_codec: LogMessagePackInternalView,
}

impl View for LogMessagePack {
    type V = LogMessagePackView;

    open spec fn view(&self) -> LogMessagePackView {
        LogMessagePackView { bec_codec: self.bec_codec@ }
    }
}

} // verus!
