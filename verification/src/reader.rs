//! The reader as a state machine: what it asks of the stream and of the
//! queue, and what it does with each answer.
//!
//! The machine itself performs nothing. Each step takes the answer to the
//! action that the step before asked for, and gives the next state and the
//! next action. The states are those of the reader's life: before anything is
//! done, with a connection, with the consumer group ensured, polling, and
//! stopped or aborted. A poll cycle passes through three of them: `Polling`
//! while the read is under way, `Decoding` while the payloads are turned into
//! trees, and `Pushing` while the messages go to the queue one by one.

use crate::config::{RedisConfig, RedisConfigView};
use crate::json::{Json, JsonModel};
use crate::log_msg::{LogMsg, LogMsgView};
use crate::redis_logs::{
    all_binary, all_have_data, binary_payloads, envelopes_of, error_log_item, extract_records,
    payloads_of, process_data, read_logs, read_outcome, records_of, sentinel_msg, ReadError,
};
use crate::stream::{StreamReply, StreamReplyView, WireValueView};
use crate::views::{option_view, option_views, views};
use std::collections::VecDeque;
use vstd::prelude::*;

verus! {

/// How a read of the stream is to be made.
#[derive(Debug, Clone, PartialEq, Eq)]
pub struct ReadOptions {
    /// The largest number of entries that the read may give.
    pub count: usize,
    /// The longest time, in milliseconds, that the read may wait for entries.
    pub block_millis: usize,
    /// The consumer group to read for.
    pub group: String,
    /// The consumer to read as.
    pub consumer: String,
}

pub struct ReadOptionsView {
    pub count: usize,
    pub block_millis: usize,
    pub group: Seq<char>,
    pub consumer: Seq<char>,
}

impl View for ReadOptions {
    type V = ReadOptionsView;

    open spec fn view(&self) -> ReadOptionsView {
        ReadOptionsView {
            count: self.count,
            block_millis: self.block_millis,
            group: self.group@,
            consumer: self.consumer@,
        }
    }
}

/// What the reader asks for.
#[derive(Debug, PartialEq)]
pub enum ReaderAction {
    /// Open a connection to the stream's backend.
    Connect { url: String },
    /// Create the consumer group on the stream, starting at the entry `start`.
    CreateGroup { stream: String, group: String, start: String },
    /// Register the consumer in the group, after reporting `notice` if there
    /// is one.
    RegisterConsumer { stream: String, group: String, consumer: String, notice: Option<String> },
    /// Read the entries of the stream from `position` on.
    Poll { stream: String, position: String, options: ReadOptions },
    /// Turn each payload into the tree that its bytes encode.
    Decode(Vec<Vec<u8>>),
    /// Put the message on the queue.
    Push(LogMsg),
    /// Report `0` and end the loop: the queue's consumer is gone.
    Stop(String),
    /// Report `0` and end the process: the reader cannot be set up.
    Abort(String),
    /// Nothing: the reader has ended.
    Halt,
}

pub enum ReaderActionView {
    Connect { url: Seq<char> },
    CreateGroup { stream: Seq<char>, group: Seq<char>, start: Seq<char> },
    RegisterConsumer {
        stream: Seq<char>,
        group: Seq<char>,
        consumer: Seq<char>,
        notice: Option<Seq<char>>,
    },
    Poll { stream: Seq<char>, position: Seq<char>, options: ReadOptionsView },
    Decode(Seq<Seq<u8>>),
    Push(LogMsgView),
    Stop(Seq<char>),
    Abort(Seq<char>),
    Halt,
}

impl View for ReaderAction {
    type V = ReaderActionView;

    open spec fn view(&self) -> ReaderActionView {
        match self {
            ReaderAction::Connect { url } => ReaderActionView::Connect { url: url@ },
            ReaderAction::CreateGroup { stream, group, start } => ReaderActionView::CreateGroup {
                stream: stream@,
                group: group@,
                start: start@,
            },
            ReaderAction::RegisterConsumer {
                stream,
                group,
                consumer,
                notice,
            } => ReaderActionView::RegisterConsumer {
                stream: stream@,
                group: group@,
                consumer: consumer@,
                notice: option_view(*notice),
            },
            ReaderAction::Poll { stream, position, options } => ReaderActionView::Poll {
                stream: stream@,
                position: position@,
                options: options@,
            },
            ReaderAction::Decode(payloads) => ReaderActionView::Decode(views(payloads@)),
            ReaderAction::Push(msg) => ReaderActionView::Push(msg@),
            ReaderAction::Stop(report) => ReaderActionView::Stop(report@),
            ReaderAction::Abort(report) => ReaderActionView::Abort(report@),
            ReaderAction::Halt => ReaderActionView::Halt,
        }
    }
}

/// The answer to what the reader asked for.
#[derive(Debug, PartialEq)]
pub enum ReaderEvent {
    /// Whether the connection was opened.
    Connected(bool),
    /// The consumer group was created.
    GroupCreated,
    /// The consumer group was not created; the backend's error code, if it
    /// gave one.
    GroupRefused(Option<String>),
    /// Whether the consumer was registered.
    ConsumerRegistered(bool),
    /// What the read gave; `None` if the read failed.
    Read(Option<StreamReply>),
    /// The tree of each payload, in their order; `None` for a payload whose
    /// bytes encode no tree.
    Decoded(Vec<Option<Json>>),
    /// Whether the queue took the message.
    Pushed(bool),
}

pub enum ReaderEventView {
    Connected(bool),
    GroupCreated,
    GroupRefused(Option<Seq<char>>),
    ConsumerRegistered(bool),
    Read(Option<StreamReplyView>),
    Decoded(Seq<Option<JsonModel>>),
    Pushed(bool),
}

impl View for ReaderEvent {
    type V = ReaderEventView;

    open spec fn view(&self) -> ReaderEventView {
        match self {
            ReaderEvent::Connected(opened) => ReaderEventView::Connected(*opened),
            ReaderEvent::GroupCreated => ReaderEventView::GroupCreated,
            ReaderEvent::GroupRefused(code) => ReaderEventView::GroupRefused(option_view(*code)),
            ReaderEvent::ConsumerRegistered(registered) => ReaderEventView::ConsumerRegistered(
                *registered,
            ),
            ReaderEvent::Read(reply) => ReaderEventView::Read(option_view(*reply)),
            ReaderEvent::Decoded(trees) => ReaderEventView::Decoded(option_views(trees@)),
            ReaderEvent::Pushed(taken) => ReaderEventView::Pushed(*taken),
        }
    }
}

/// Where the reader stands.
#[derive(Debug, PartialEq)]
pub enum ReaderState {
    /// Nothing is done yet; a connection is being opened.
    Uninitialized,
    /// The connection is open; the consumer group is being created.
    Connected,
    /// The consumer group exists; the consumer is being registered.
    GroupEnsured,
    /// A read is under way.
    Polling,
    /// The payloads of a read are being turned into trees.
    Decoding,
    /// A message is on its way to the queue; these are to follow it, first
    /// first.
    Pushing(VecDeque<LogMsg>),
    /// The queue's consumer is gone and the loop has ended.
    Stopped,
    /// The reader could not be set up.
    Aborted,
}

pub enum ReaderStateView {
    Uninitialized,
    Connected,
    GroupEnsured,
    Polling,
    Decoding,
    Pushing(Seq<LogMsgView>),
    Stopped,
    Aborted,
}

impl View for ReaderState {
    type V = ReaderStateView;

    open spec fn view(&self) -> ReaderStateView {
        match self {
            ReaderState::Uninitialized => ReaderStateView::Uninitialized,
            ReaderState::Connected => ReaderStateView::Connected,
            ReaderState::GroupEnsured => ReaderStateView::GroupEnsured,
            ReaderState::Polling => ReaderStateView::Polling,
            ReaderState::Decoding => ReaderStateView::Decoding,
            ReaderState::Pushing(rest) => ReaderStateView::Pushing(views(rest@)),
            ReaderState::Stopped => ReaderStateView::Stopped,
            ReaderState::Aborted => ReaderStateView::Aborted,
        }
    }
}

/// The key of the stream that carries the log messages.
pub open spec fn stream_key() -> Seq<char> {
    "info/log"@
}

/// The error code with which the backend refuses to create a group that
/// exists already.
pub open spec fn group_exists_code() -> Seq<char> {
    "BUSYGROUP"@
}

impl RedisConfigView {
    /// How each read is made: up to the chunk size of entries, waiting no
    /// longer than the block time, for the configured group and consumer.
    pub open spec fn read_options(self) -> ReadOptionsView {
        ReadOptionsView {
            count: self.chunk_size as usize,
            block_millis: self.blocktime_millis,
            group: self.consumer_group,
            consumer: self.consumer_id,
        }
    }

    /// The read of the entries that were not yet delivered to the group.
    pub open spec fn poll(self) -> ReaderActionView {
        ReaderActionView::Poll {
            stream: stream_key(),
            position: ">"@,
            options: self.read_options(),
        }
    }

    /// The creation of the group at the oldest entry of the stream.
    pub open spec fn create_group(self) -> ReaderActionView {
        ReaderActionView::CreateGroup {
            stream: stream_key(),
            group: self.consumer_group,
            start: "0"@,
        }
    }

    /// The registration of the consumer in the group.
    pub open spec fn register_consumer(self, notice: Option<Seq<char>>) -> ReaderActionView {
        ReaderActionView::RegisterConsumer {
            stream: stream_key(),
            group: self.consumer_group,
            consumer: self.consumer_id,
            notice,
        }
    }

    /// What is reported when the group exists already.
    pub open spec fn rejoin_notice(self) -> Seq<char> {
        "Group "@ + self.consumer_group + " already exists, rejoining with ID "@
            + self.consumer_id
    }

    /// What is reported when the group cannot be created.
    pub open spec fn group_failure(self) -> Seq<char> {
        "Failed to create Redis consumer group "@ + self.consumer_group + "!"@
    }

    /// What is reported when the consumer cannot be registered.
    pub open spec fn consumer_failure(self) -> Seq<char> {
        "Failed to create Redis consumer ID "@ + self.consumer_id + " in group "@
            + self.consumer_group + "!"@
    }

    /// The state and the action with which the reader begins.
    pub open spec fn start(self) -> (ReaderStateView, ReaderActionView) {
        (ReaderStateView::Uninitialized, ReaderActionView::Connect { url: self.url.full_url() })
    }

    /// What follows a batch of messages: the first goes to the queue and the
    /// others wait; with no message, the next read.
    pub open spec fn hand_on(self, records: Seq<LogMsgView>) -> (
        ReaderStateView,
        ReaderActionView,
    ) {
        if records.len() == 0 {
            (ReaderStateView::Polling, self.poll())
        } else {
            (ReaderStateView::Pushing(records.drop_first()), ReaderActionView::Push(records[0]))
        }
    }

    /// What follows the answer to the creation of the group. A group that
    /// exists already is joined again; any other refusal is the end.
    pub open spec fn after_group(self, refused: Option<Option<Seq<char>>>) -> (
        ReaderStateView,
        ReaderActionView,
    ) {
        match refused {
            None => (ReaderStateView::GroupEnsured, self.register_consumer(None)),
            Some(code) => if code == Some(group_exists_code()) {
                (
                    ReaderStateView::GroupEnsured,
                    self.register_consumer(Some(self.rejoin_notice())),
                )
            } else {
                (ReaderStateView::Aborted, ReaderActionView::Abort(self.group_failure()))
            },
        }
    }

    /// What follows a read.
    ///
    /// Entries that were read are never dropped in silence: if one of them
    /// has no `data` field, or a `data` field that holds no bytes, the
    /// sentinel alone goes to the queue in place of the batch. Payloads that
    /// are all bytes go to be decoded.
    ///
    /// Where no entry was read, nothing goes to the queue and the next read
    /// follows: after a read that failed, after a reply without entries, and
    /// after a reply without a key. A reply without a key is what a read gives
    /// that waited its block time out with nothing new, so it is taken as an
    /// idle read and not as a failed batch: a sentinel there would be put on
    /// the queue on every idle poll.
    pub open spec fn after_read(self, reply: Option<StreamReplyView>) -> (
        ReaderStateView,
        ReaderActionView,
    ) {
        match reply {
            Some(reply) => match read_outcome(reply) {
                Ok((Some(_), values)) => match payloads_of(values) {
                    Ok(payloads) => (ReaderStateView::Decoding, ReaderActionView::Decode(payloads)),
                    Err(_) => self.hand_on(seq![sentinel_msg()]),
                },
                Err(ReadError::NoData) => self.hand_on(seq![sentinel_msg()]),
                _ => (ReaderStateView::Polling, self.poll()),
            },
            None => (ReaderStateView::Polling, self.poll()),
        }
    }

    /// What follows the decoding: the messages of the envelopes, in their
    /// order, if every tree holds one; else the sentinel alone.
    pub open spec fn after_decoding(self, trees: Seq<Option<JsonModel>>) -> (
        ReaderStateView,
        ReaderActionView,
    ) {
        match envelopes_of(trees) {
            Ok(envelopes) => self.hand_on(records_of(envelopes)),
            Err(_) => self.hand_on(seq![sentinel_msg()]),
        }
    }

    /// The reader's step: the state and the action that follow from a state
    /// and the answer to its action. An answer that the state does not wait
    /// for aborts the reader; a reader that has ended stays as it is.
    pub open spec fn step(self, state: ReaderStateView, event: ReaderEventView) -> (
        ReaderStateView,
        ReaderActionView,
    ) {
        match (state, event) {
            (ReaderStateView::Stopped, _) => (ReaderStateView::Stopped, ReaderActionView::Halt),
            (ReaderStateView::Aborted, _) => (ReaderStateView::Aborted, ReaderActionView::Halt),
            (ReaderStateView::Uninitialized, ReaderEventView::Connected(opened)) => if opened {
                (ReaderStateView::Connected, self.create_group())
            } else {
                (ReaderStateView::Aborted, ReaderActionView::Abort("Could not connect to Redis!"@))
            },
            (ReaderStateView::Connected, ReaderEventView::GroupCreated) => self.after_group(None),
            (ReaderStateView::Connected, ReaderEventView::GroupRefused(code)) => self.after_group(
                Some(code),
            ),
            (
                ReaderStateView::GroupEnsured,
                ReaderEventView::ConsumerRegistered(registered),
            ) => if registered {
                (ReaderStateView::Polling, self.poll())
            } else {
                (ReaderStateView::Aborted, ReaderActionView::Abort(self.consumer_failure()))
            },
            (ReaderStateView::Polling, ReaderEventView::Read(reply)) => self.after_read(reply),
            (ReaderStateView::Decoding, ReaderEventView::Decoded(trees)) => self.after_decoding(
                trees,
            ),
            (ReaderStateView::Pushing(rest), ReaderEventView::Pushed(taken)) => if taken {
                self.hand_on(rest)
            } else {
                (
                    ReaderStateView::Stopped,
                    ReaderActionView::Stop("Receiver dropped, stopping..."@),
                )
            },
            _ => (
                ReaderStateView::Aborted,
                ReaderActionView::Abort("Unexpected answer to the reader!"@),
            ),
        }
    }
}

/// How each read is made.
pub fn stream_read_opts(config: &RedisConfig) -> (options: ReadOptions)
    ensures
        options@ == config@.read_options(),
{
    ReadOptions {
        count: config.chunk_size as usize,
        block_millis: config.blocktime_millis,
        group: config.consumer_group.clone(),
        consumer: config.consumer_id.clone(),
    }
}

fn poll(config: &RedisConfig) -> (action: ReaderAction)
    ensures
        action@ == config@.poll(),
{
    ReaderAction::Poll {
        stream: String::from_str("info/log"),
        position: String::from_str(">"),
        options: stream_read_opts(config),
    }
}

fn register_consumer(config: &RedisConfig, notice: Option<String>) -> (action: ReaderAction)
    ensures
        action@ == config@.register_consumer(option_view(notice)),
{
    ReaderAction::RegisterConsumer {
        stream: String::from_str("info/log"),
        group: config.consumer_group.clone(),
        consumer: config.consumer_id.clone(),
        notice,
    }
}

fn hand_on(config: &RedisConfig, records: Vec<LogMsg>) -> (next: (ReaderState, ReaderAction))
    ensures
        (next.0@, next.1@) == config@.hand_on(views(records@)),
{
    let ghost all = records@;
    let mut first: Option<LogMsg> = None;
    let mut rest: VecDeque<LogMsg> = VecDeque::new();
    for record in it: records
        invariant
            it.seq() == all,
            it.index() == 0 ==> first is None && rest@.len() == 0,
            it.index() > 0 ==> first == Some(all[0]) && rest@ =~= all.subrange(1, it.index() as int),
    {
        if first.is_none() {
            first = Some(record);
        } else {
            rest.push_back(record);
        }
    }
    match first {
        Some(record) => {
            assert(views(rest@) =~= views(all).drop_first());
            (ReaderState::Pushing(rest), ReaderAction::Push(record))
        },
        None => (ReaderState::Polling, poll(config)),
    }
}

fn sentinel_alone() -> (records: Vec<LogMsg>)
    ensures
        views(records@) == seq![sentinel_msg()],
{
    let mut records: Vec<LogMsg> = Vec::new();
    records.push(error_log_item().bec_codec.data.log_msg);
    assert(views(records@) =~= seq![sentinel_msg()]);
    records
}

/// The state and the action that follow the answer to the creation of the
/// consumer group: `refused` is `None` if the group was created, and else
/// holds the backend's error code, if it gave one.
pub fn setup_consumer_group(config: &RedisConfig, refused: Option<Option<String>>) -> (next: (
    ReaderState,
    ReaderAction,
))
    ensures
        (next.0@, next.1@) == config@.after_group(
            match refused {
                Some(code) => Some(option_view(code)),
                None => None,
            },
        ),
{
    match refused {
        None => (ReaderState::GroupEnsured, register_consumer(config, None)),
        Some(code) => {
            let exists = match &code {
                Some(code) => *code == String::from_str("BUSYGROUP"),
                None => false,
            };
            if exists {
                let mut notice = String::from_str("Group ");
                notice.append(config.consumer_group.as_str());
                notice.append(" already exists, rejoining with ID ");
                notice.append(config.consumer_id.as_str());
                (ReaderState::GroupEnsured, register_consumer(config, Some(notice)))
            } else {
                let mut report = String::from_str("Failed to create Redis consumer group ");
                report.append(config.consumer_group.as_str());
                report.append("!");
                (ReaderState::Aborted, ReaderAction::Abort(report))
            }
        },
    }
}

/// The state and the action with which the reader begins.
pub fn start(config: &RedisConfig) -> (next: (ReaderState, ReaderAction))
    ensures
        (next.0@, next.1@) == config@.start(),
{
    (ReaderState::Uninitialized, ReaderAction::Connect { url: config.url.full_url() })
}

/// The reader's step: the state and the action that follow from a state and
/// the answer to its action.
pub fn step(config: &RedisConfig, state: ReaderState, event: ReaderEvent) -> (next: (
    ReaderState,
    ReaderAction,
))
    ensures
        (next.0@, next.1@) == config@.step(state@, event@),
{
    match (state, event) {
        (ReaderState::Stopped, _) => (ReaderState::Stopped, ReaderAction::Halt),
        (ReaderState::Aborted, _) => (ReaderState::Aborted, ReaderAction::Halt),
        (ReaderState::Uninitialized, ReaderEvent::Connected(opened)) => if opened {
            (
                ReaderState::Connected,
                ReaderAction::CreateGroup {
                    stream: String::from_str("info/log"),
                    group: config.consumer_group.clone(),
                    start: String::from_str("0"),
                },
            )
        } else {
            (
                ReaderState::Aborted,
                ReaderAction::Abort(String::from_str("Could not connect to Redis!")),
            )
        },
        (ReaderState::Connected, ReaderEvent::GroupCreated) => setup_consumer_group(config, None),
        (ReaderState::Connected, ReaderEvent::GroupRefused(code)) => setup_consumer_group(
            config,
            Some(code),
        ),
        (ReaderState::GroupEnsured, ReaderEvent::ConsumerRegistered(registered)) => if registered {
            (ReaderState::Polling, poll(config))
        } else {
            let mut report = String::from_str("Failed to create Redis consumer ID ");
            report.append(config.consumer_id.as_str());
            report.append(" in group ");
            report.append(config.consumer_group.as_str());
            report.append("!");
            (ReaderState::Aborted, ReaderAction::Abort(report))
        },
        (ReaderState::Polling, ReaderEvent::Read(reply)) => match reply {
            Some(reply) => match read_logs(&reply) {
                Ok((Some(_), values)) => match binary_payloads(values) {
                    Ok(payloads) => (ReaderState::Decoding, ReaderAction::Decode(payloads)),
                    Err(_) => hand_on(config, sentinel_alone()),
                },
                Err(ReadError::NoData) => hand_on(config, sentinel_alone()),
                _ => (ReaderState::Polling, poll(config)),
            },
            None => (ReaderState::Polling, poll(config)),
        },
        (ReaderState::Decoding, ReaderEvent::Decoded(trees)) => match process_data(&trees) {
            Ok(envelopes) => hand_on(config, extract_records(envelopes)),
            Err(_) => hand_on(config, sentinel_alone()),
        },
        (ReaderState::Pushing(rest), ReaderEvent::Pushed(taken)) => if taken {
            let mut rest = rest;
            let ghost waiting = rest@;
            match rest.pop_front() {
                Some(record) => {
                    assert(views(rest@) =~= views(waiting).drop_first());
                    (ReaderState::Pushing(rest), ReaderAction::Push(record))
                },
                None => (ReaderState::Polling, poll(config)),
            }
        } else {
            (
                ReaderState::Stopped,
                ReaderAction::Stop(String::from_str("Receiver dropped, stopping...")),
            )
        },
        _ => (
            ReaderState::Aborted,
            ReaderAction::Abort(String::from_str("Unexpected answer to the reader!")),
        ),
    }
}

impl ReaderStateView {
    /// Whether the reader is in a poll cycle: reading, decoding or pushing.
    pub open spec fn in_cycle(self) -> bool {
        self is Polling || self is Decoding || self is Pushing
    }

    /// Whether `event` answers the action that the state waits for.
    pub open spec fn awaits(self, event: ReaderEventView) -> bool {
        match (self, event) {
            (ReaderStateView::Uninitialized, ReaderEventView::Connected(_)) => true,
            (ReaderStateView::Connected, ReaderEventView::GroupCreated) => true,
            (ReaderStateView::Connected, ReaderEventView::GroupRefused(_)) => true,
            (ReaderStateView::GroupEnsured, ReaderEventView::ConsumerRegistered(_)) => true,
            (ReaderStateView::Polling, ReaderEventView::Read(_)) => true,
            (ReaderStateView::Decoding, ReaderEventView::Decoded(_)) => true,
            (ReaderStateView::Pushing(_), ReaderEventView::Pushed(_)) => true,
            _ => false,
        }
    }
}

/// Once the reader is in a poll cycle, no answer that it waits for aborts it:
/// whatever a read or a decoding gave, the reader stays in the cycle. It
/// stops exactly when the queue did not take a message.
pub proof fn lemma_cycle_goes_on(
    config: RedisConfigView,
    state: ReaderStateView,
    event: ReaderEventView,
)
    requires
        state.in_cycle(),
        state.awaits(event),
    ensures
        config.step(state, event).0.in_cycle() || config.step(state, event).0 is Stopped,
        config.step(state, event).0 is Stopped <==> event == ReaderEventView::Pushed(false),
        config.step(state, event).0 is Stopped ==> config.step(state, event).1
            == ReaderActionView::Stop("Receiver dropped, stopping..."@),
{
}

/// A reader that has stopped or aborted stays so and asks for nothing more.
pub proof fn lemma_ended_reader_stays(
    config: RedisConfigView,
    state: ReaderStateView,
    event: ReaderEventView,
)
    requires
        state is Stopped || state is Aborted,
    ensures
        config.step(state, event) == (state, ReaderActionView::Halt),
{
}

/// The messages of a batch go to the queue in the batch's order: while the
/// queue takes them, the message that is pushed after the first `done` of
/// them is the next of the batch, and after the last the reader reads again.
pub proof fn lemma_batch_is_pushed_in_order(
    config: RedisConfigView,
    records: Seq<LogMsgView>,
    done: int,
)
    requires
        0 <= done <= records.len(),
    ensures
        done < records.len() ==> config.hand_on(records.skip(done)) == (
            ReaderStateView::Pushing(records.skip(done + 1)),
            ReaderActionView::Push(records[done]),
        ),
        done == records.len() ==> config.hand_on(records.skip(done)) == (
            ReaderStateView::Polling,
            config.poll(),
        ),
        done < records.len() ==> config.step(
            ReaderStateView::Pushing(records.skip(done + 1)),
            ReaderEventView::Pushed(true),
        ) == config.hand_on(records.skip(done + 1)),
{
    if done < records.len() {
        assert(records.skip(done).drop_first() =~= records.skip(done + 1));
    }
}

/// A read with an entry that lacks its `data` field is an error, and the
/// reader puts on the queue the sentinel and nothing else: no message of
/// the read's entries, and then the next read.
pub proof fn lemma_missing_data_enqueues_sentinel(config: RedisConfigView, reply: StreamReplyView)
    requires
        reply.keys.len() > 0,
        !all_have_data(reply.keys[0].ids),
    ensures
        read_outcome(reply) == Err::<(Option<Seq<char>>, Seq<WireValueView>), _>(
            ReadError::NoData,
        ),
        config.step(ReaderStateView::Polling, ReaderEventView::Read(Some(reply))) == (
            ReaderStateView::Pushing(Seq::empty()),
            ReaderActionView::Push(sentinel_msg()),
        ),
        config.step(ReaderStateView::Pushing(Seq::empty()), ReaderEventView::Pushed(true)) == (
            ReaderStateView::Polling,
            config.poll(),
        ),
{
    assert(seq![sentinel_msg()].drop_first() =~= Seq::empty());
}

/// A read that brought no entry puts nothing on the queue: after a read that
/// failed, a reply without a key and a reply without entries, the next read
/// follows.
pub proof fn lemma_idle_read_enqueues_nothing(
    config: RedisConfigView,
    reply: Option<StreamReplyView>,
)
    requires
        reply is Some ==> reply->0.keys.len() == 0 || reply->0.keys[0].ids.len() == 0,
    ensures
        config.step(ReaderStateView::Polling, ReaderEventView::Read(reply)) == (
            ReaderStateView::Polling,
            config.poll(),
        ),
{
}

/// A read with a `data` field that holds no bytes is an error, and the
/// reader puts on the queue the sentinel and nothing else: no message of
/// the read's entries, and then the next read.
pub proof fn lemma_not_binary_enqueues_sentinel(config: RedisConfigView, reply: StreamReplyView)
    requires
        read_outcome(reply) is Ok,
        read_outcome(reply)->Ok_0.0 is Some,
        !all_binary(read_outcome(reply)->Ok_0.1),
    ensures
        payloads_of(read_outcome(reply)->Ok_0.1) == Err::<Seq<Seq<u8>>, _>(ReadError::NotBinary),
        config.step(ReaderStateView::Polling, ReaderEventView::Read(Some(reply))) == (
            ReaderStateView::Pushing(Seq::empty()),
            ReaderActionView::Push(sentinel_msg()),
        ),
        config.step(ReaderStateView::Pushing(Seq::empty()), ReaderEventView::Pushed(true)) == (
            ReaderStateView::Polling,
            config.poll(),
        ),
{
    assert(seq![sentinel_msg()].drop_first() =~= Seq::empty());
}

/// A batch in which one payload gave no tree, or one tree holds no envelope,
/// puts on the queue exactly one message: the sentinel, of severity `ERROR`
/// and with the fixed message. Nothing of the batch itself follows.
pub proof fn lemma_malformed_batch_enqueues_sentinel(
    config: RedisConfigView,
    trees: Seq<Option<JsonModel>>,
)
    requires
        envelopes_of(trees) is Err,
    ensures
        config.step(ReaderStateView::Decoding, ReaderEventView::Decoded(trees)) == (
            ReaderStateView::Pushing(Seq::empty()),
            ReaderActionView::Push(sentinel_msg()),
        ),
        sentinel_msg().record.level.name == "ERROR"@,
        sentinel_msg().record.message == "Error processing log messages from Redis!"@,
        config.step(ReaderStateView::Pushing(Seq::empty()), ReaderEventView::Pushed(true)) == (
            ReaderStateView::Polling,
            config.poll(),
        ),
{
    assert(seq![sentinel_msg()].drop_first() =~= Seq::empty());
}

} // verus!
