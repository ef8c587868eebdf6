//! The indexer as a state machine: what it asks of the queue and of the search
//! engine, and what it does with each answer.
//!
//! The machine itself performs nothing. Each step takes the answer to the
//! action that the step before asked for, and gives the next state and the
//! next action.

use crate::config::{Credentials, CredentialsView, ElasticConfig, ElasticConfigView};
use crate::elastic_push::{all_renderable, bulk_body, is_renderable_batch, make_json_body};
use crate::json::{Json, JsonModel};
use crate::log_msg::{LogMsg, LogMsgView};
use crate::text::{decimal, to_decimal};
use crate::views::{option_view, views};
use vstd::prelude::*;

verus! {

/// What the indexer asks for.
#[derive(Debug, PartialEq)]
pub enum IndexerAction {
    /// Make a client for the search engine at `url`.
    Connect { url: String, credentials: Credentials },
    /// Take up to `max` messages from the queue, waiting while it is empty,
    /// after reporting `report` if there is one.
    Pull { max: usize, report: Option<String> },
    /// Send `body` to the index as one bulk request.
    Submit { index: String, body: Vec<Json> },
    /// Report `0` and end the loop: the queue's producer is gone.
    Exit(String),
    /// Report `0` and end the process: the indexer cannot be set up.
    Abort(String),
    /// Nothing: the indexer has ended.
    Halt,
}

pub enum IndexerActionView {
    Connect { url: Seq<char>, credentials: CredentialsView },
    Pull { max: usize, report: Option<Seq<char>> },
    Submit { index: Seq<char>, body: Seq<JsonModel> },
    Exit(Seq<char>),
    Abort(Seq<char>),
    Halt,
}

impl View for IndexerAction {
    type V = IndexerActionView;

    open spec fn view(&self) -> IndexerActionView {
        match self {
            IndexerAction::Connect { url, credentials } => IndexerActionView::Connect {
                url: url@,
                credentials: credentials@,
            },
            IndexerAction::Pull { max, report } => IndexerActionView::Pull {
                max: *max,
                report: option_view(*report),
            },
            IndexerAction::Submit { index, body } => IndexerActionView::Submit {
                index: index@,
                body: views(body@),
            },
            IndexerAction::Exit(report) => IndexerActionView::Exit(report@),
            IndexerAction::Abort(report) => IndexerActionView::Abort(report@),
            IndexerAction::Halt => IndexerActionView::Halt,
        }
    }
}

/// The answer to what the indexer asked for.
#[derive(Debug, PartialEq)]
pub enum IndexerEvent {
    /// Whether the client was made.
    Connected(bool),
    /// The messages that were taken from the queue, in the queue's order,
    /// and whether the queue's producer is gone.
    Pulled { msgs: Vec<LogMsg>, producer_gone: bool },
    /// Whether the bulk request was answered without an error.
    Submitted(bool),
}

pub enum IndexerEventView {
    Connected(bool),
    Pulled { msgs: Seq<LogMsgView>, producer_gone: bool },
    Submitted(bool),
}

impl View for IndexerEvent {
    type V = IndexerEventView;

    open spec fn view(&self) -> IndexerEventView {
        match self {
            IndexerEvent::Connected(made) => IndexerEventView::Connected(*made),
            IndexerEvent::Pulled { msgs, producer_gone } => IndexerEventView::Pulled {
                msgs: views(msgs@),
                producer_gone: *producer_gone,
            },
            IndexerEvent::Submitted(accepted) => IndexerEventView::Submitted(*accepted),
        }
    }
}

impl IndexerEventView {
    /// Whether the time of each message that the answer brings can be
    /// rendered.
    pub open spec fn renderable(self) -> bool {
        match self {
            IndexerEventView::Pulled { msgs, .. } => all_renderable(msgs),
            _ => true,
        }
    }
}

impl IndexerEvent {
    /// Whether the time of each message that the answer brings can be
    /// rendered.
    pub fn is_renderable(&self) -> (renderable: bool)
        ensures
            renderable == self@.renderable(),
    {
        match self {
            IndexerEvent::Pulled { msgs, .. } => is_renderable_batch(msgs),
            _ => true,
        }
    }
}

/// Where the indexer stands.
#[derive(Clone, Copy, Debug, PartialEq, Eq, Structural)]
pub enum IndexerState {
    /// Nothing is done yet; the client is being made.
    Uninitialized,
    /// Messages are being taken from the queue.
    Pulling,
    /// A bulk request for this many messages is under way.
    Submitting(usize),
    /// The queue's producer is gone and the loop has ended.
    Stopped,
    /// The indexer could not be set up.
    Aborted,
}

/// A truth value in words.
pub open spec fn truth_text(truth: bool) -> Seq<char> {
    if truth {
        "true"@
    } else {
        "false"@
    }
}

impl ElasticConfigView {
    /// The largest number of messages of a batch: the chunk size, and one
    /// where the chunk size is zero, so that taking a batch always waits for
    /// a message or for the end of the queue.
    pub open spec fn batch_size(self) -> usize {
        if self.chunk_size == 0 {
            1
        } else {
            self.chunk_size as usize
        }
    }

    /// The taking of the next batch, of up to the batch size of messages.
    pub open spec fn pull(self, report: Option<Seq<char>>) -> IndexerActionView {
        IndexerActionView::Pull { max: self.batch_size(), report }
    }

    /// What is reported after a bulk request: the number of messages sent
    /// and whether the request was answered without an error.
    pub open spec fn submit_report(count: usize, accepted: bool) -> Seq<char> {
        "sent "@ + decimal(count as nat) + " logs to elastic, response OK: "@ + truth_text(
            accepted,
        )
    }

    /// The state and the action with which the indexer begins: it makes a
    /// client with the configured credentials, or aborts if the
    /// configuration yields none.
    pub open spec fn start(self) -> (IndexerState, IndexerActionView) {
        match self.credentials() {
            Ok(credentials) => (
                IndexerState::Uninitialized,
                IndexerActionView::Connect { url: self.url.full_url(), credentials },
            ),
            Err(_) => (
                IndexerState::Aborted,
                IndexerActionView::Abort("Failed to connect to Elastic!"@),
            ),
        }
    }

    /// The indexer's step: the state and the action that follow from a state
    /// and the answer to its action. A batch is sent as one bulk request; a
    /// request that failed is reported and its batch dropped. An empty batch
    /// is not sent: it ends the loop if the queue's producer is gone, and
    /// else the next batch is taken. An answer that the state does not wait
    /// for aborts the indexer; an indexer that has ended stays as it is.
    pub open spec fn step(self, state: IndexerState, event: IndexerEventView) -> (
        IndexerState,
        IndexerActionView,
    ) {
        match (state, event) {
            (IndexerState::Stopped, _) => (IndexerState::Stopped, IndexerActionView::Halt),
            (IndexerState::Aborted, _) => (IndexerState::Aborted, IndexerActionView::Halt),
            (IndexerState::Uninitialized, IndexerEventView::Connected(made)) => if made {
                (IndexerState::Pulling, self.pull(None))
            } else {
                (IndexerState::Aborted, IndexerActionView::Abort("Failed to connect to Elastic!"@))
            },
            (
                IndexerState::Pulling,
                IndexerEventView::Pulled { msgs, producer_gone },
            ) => if msgs.len() == 0 && producer_gone {
                (
                    IndexerState::Stopped,
                    IndexerActionView::Exit("Producer dropped, consumer exiting"@),
                )
            } else if msgs.len() == 0 {
                (IndexerState::Pulling, self.pull(None))
            } else {
                (
                    IndexerState::Submitting(msgs.len() as usize),
                    IndexerActionView::Submit { index: self.index, body: bulk_body(msgs) },
                )
            },
            (IndexerState::Submitting(count), IndexerEventView::Submitted(accepted)) => (
                IndexerState::Pulling,
                self.pull(Some(Self::submit_report(count, accepted))),
            ),
            _ => (
                IndexerState::Aborted,
                IndexerActionView::Abort("Unexpected answer to the indexer!"@),
            ),
        }
    }
}

fn pull(config: &ElasticConfig, report: Option<String>) -> (action: IndexerAction)
    ensures
        action@ == config@.pull(option_view(report)),
{
    let max: usize = if config.chunk_size == 0 {
        1
    } else {
        config.chunk_size as usize
    };
    IndexerAction::Pull { max, report }
}

/// The state and the action with which the indexer begins.
pub fn start(config: &ElasticConfig) -> (next: (IndexerState, IndexerAction))
    ensures
        (next.0, next.1@) == config@.start(),
{
    match config.credentials() {
        Ok(credentials) => (
            IndexerState::Uninitialized,
            IndexerAction::Connect { url: config.url.full_url(), credentials },
        ),
        Err(_) => (
            IndexerState::Aborted,
            IndexerAction::Abort(String::from_str("Failed to connect to Elastic!")),
        ),
    }
}

/// The indexer's step: the state and the action that follow from a state and
/// the answer to its action.
pub fn step(config: &ElasticConfig, state: IndexerState, event: IndexerEvent) -> (next: (
    IndexerState,
    IndexerAction,
))
    requires
        event@.renderable(),
    ensures
        (next.0, next.1@) == config@.step(state, event@),
{
    match (state, event) {
        (IndexerState::Stopped, _) => (IndexerState::Stopped, IndexerAction::Halt),
        (IndexerState::Aborted, _) => (IndexerState::Aborted, IndexerAction::Halt),
        (IndexerState::Uninitialized, IndexerEvent::Connected(made)) => if made {
            (IndexerState::Pulling, pull(config, None))
        } else {
            (
                IndexerState::Aborted,
                IndexerAction::Abort(String::from_str("Failed to connect to Elastic!")),
            )
        },
        (
            IndexerState::Pulling,
            IndexerEvent::Pulled { msgs, producer_gone },
        ) => if msgs.len() == 0 && producer_gone {
            (
                IndexerState::Stopped,
                IndexerAction::Exit(String::from_str("Producer dropped, consumer exiting")),
            )
        } else if msgs.len() == 0 {
            (IndexerState::Pulling, pull(config, None))
        } else {
            let body = make_json_body(&msgs);
            (
                IndexerState::Submitting(msgs.len()),
                IndexerAction::Submit { index: config.index.clone(), body },
            )
        },
        (IndexerState::Submitting(count), IndexerEvent::Submitted(accepted)) => {
            let mut report = String::from_str("sent ");
            let number = to_decimal(count as u64);
            report.append(number.as_str());
            report.append(" logs to elastic, response OK: ");
            report.append(
                if accepted {
                    "true"
                } else {
                    "false"
                },
            );
            (IndexerState::Pulling, pull(config, Some(report)))
        },
        _ => (
            IndexerState::Aborted,
            IndexerAction::Abort(String::from_str("Unexpected answer to the indexer!")),
        ),
    }
}

/// A bulk request that failed does not end the loop: its batch is dropped,
/// the failure is reported, and the indexer takes the next batch.
pub proof fn lemma_failed_request_goes_on(config: ElasticConfigView, count: usize)
    ensures
        config.step(IndexerState::Submitting(count), IndexerEventView::Submitted(false)) == (
            IndexerState::Pulling,
            config.pull(Some(ElasticConfigView::submit_report(count, false))),
        ),
{
}

/// A batch is sent as exactly one bulk request of twice as many elements as
/// it has messages, whether or not the queue's producer is gone. An empty
/// batch is not sent.
pub proof fn lemma_one_request_for_each_batch(
    config: ElasticConfigView,
    msgs: Seq<LogMsgView>,
    producer_gone: bool,
)
    requires
        0 < msgs.len() <= usize::MAX,
    ensures
        config.step(IndexerState::Pulling, IndexerEventView::Pulled { msgs, producer_gone }) == (
            IndexerState::Submitting(msgs.len() as usize),
            IndexerActionView::Submit { index: config.index, body: bulk_body(msgs) },
        ),
        bulk_body(msgs).len() == 2 * msgs.len(),
{
}

/// The loop ends exactly when a batch is empty and the queue's producer is
/// gone. Until then the indexer stays in the loop: an empty batch of a queue
/// whose producer lives leads to the next batch, of at least one message.
pub proof fn lemma_loop_ends_with_the_producer(
    config: ElasticConfigView,
    state: IndexerState,
    event: IndexerEventView,
)
    requires
        state == IndexerState::Pulling && event is Pulled || state is Submitting
            && event is Submitted,
    ensures
        config.step(state, event).0 is Stopped <==> event == (IndexerEventView::Pulled {
            msgs: Seq::empty(),
            producer_gone: true,
        }),
        !(config.step(state, event).0 is Stopped) ==> config.step(state, event).0 is Pulling
            || config.step(state, event).0 is Submitting,
        config.step(
            IndexerState::Pulling,
            IndexerEventView::Pulled { msgs: Seq::empty(), producer_gone: false },
        ) == (IndexerState::Pulling, config.pull(None)),
        config.batch_size() >= 1,
{
    if event is Pulled && event->msgs.len() == 0 {
        assert(event->msgs =~= Seq::empty());
    }
}

/// An indexer that has stopped or aborted stays so and asks for nothing
/// more.
pub proof fn lemma_ended_indexer_stays(
    config: ElasticConfigView,
    state: IndexerState,
    event: IndexerEventView,
)
    requires
        state is Stopped || state is Aborted,
    ensures
        config.step(state, event) == (state, IndexerActionView::Halt),
{
}

} // verus!
