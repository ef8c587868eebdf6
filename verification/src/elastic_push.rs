//! The indexer's side of the pipeline: from log messages to the body of a
//! bulk request.

use crate::json::{count_field, field_of, text_field, Json, JsonModel};
use crate::log_msg::{rfc3339_utc, LogMsg, LogMsgView};
use crate::number::Number;
use crate::codec::mark;
use crate::views::{distinct_names, views};
use vstd::prelude::*;

verus! {

/// The document that the index takes for a log message, with `timestamp` as
/// the rendered time of the event. The names and the shapes of its fields
/// are what the index expects.
pub open spec fn document(msg: LogMsgView, timestamp: Seq<char>) -> JsonModel {
    JsonModel::Object(
        seq![
            ("@timestamp"@, JsonModel::Text(timestamp)),
            (
                "file"@,
                JsonModel::Object(
                    seq![
                        ("name"@, JsonModel::Text(msg.record.file.name)),
                        ("path"@, JsonModel::Text(msg.record.file.path)),
                    ],
                ),
            ),
            ("function"@, JsonModel::Text(msg.record.function)),
            ("message"@, JsonModel::Text(msg.record.message)),
            ("log_type"@, JsonModel::Text(msg.record.level.name)),
            ("line"@, JsonModel::Number(Number::Unsigned(msg.record.line as u64))),
            ("module"@, JsonModel::Text(msg.record.module)),
            ("service_name"@, JsonModel::Text(msg.service_name)),
            ("proc_id"@, JsonModel::Number(Number::Unsigned(msg.record.process.id as u64))),
            (
                "exception"@,
                match msg.record.exception {
                    Some(payload) => payload,
                    None => JsonModel::Null,
                },
            ),
        ],
    )
}

/// The document of a log message, with the time of its record rendered as
/// RFC 3339 text to the whole second.
pub open spec fn document_of(msg: LogMsgView) -> JsonModel {
    document(msg, rfc3339_utc(msg.record.time.epoch_seconds()))
}

/// The directive that stands before each document of a bulk request: create
/// the document, with no further parameters.
pub open spec fn create_action() -> JsonModel {
    JsonModel::Object(seq![("create"@, JsonModel::Object(Seq::empty()))])
}

/// The body of the bulk request for a batch: for each message, in the
/// batch's order, the create directive and then the message's document.
pub open spec fn bulk_body(msgs: Seq<LogMsgView>) -> Seq<JsonModel> {
    Seq::new(
        2 * msgs.len(),
        |i: int|
            if i % 2 == 0 {
                create_action()
            } else {
                document_of(msgs[i / 2])
            },
    )
}

/// Whether the time of each message can be rendered.
pub open spec fn all_renderable(msgs: Seq<LogMsgView>) -> bool {
    forall|i: int| 0 <= i < msgs.len() ==> (#[trigger] msgs[i]).record.time.renderable()
}

/// Builds the document of a log message around the rendered time of its
/// event.
pub fn document_with(msg: &LogMsg, timestamp: String) -> (doc: Json)
    ensures
        doc@ == document(msg@, timestamp@),
{
    let mut file: Vec<(String, Json)> = Vec::new();
    file.push(text_field("name", &msg.record.file.name));
    file.push(text_field("path", &msg.record.file.path));
    let file = Json::object(file);
    assert(file@->Object_0 =~= seq![
        ("name"@, JsonModel::Text(msg@.record.file.name)),
        ("path"@, JsonModel::Text(msg@.record.file.path)),
    ]);
    let exception = match &msg.record.exception {
        Some(payload) => payload.clone(),
        None => Json::Null,
    };
    let mut fields: Vec<(String, Json)> = Vec::new();
    fields.push(field_of("@timestamp", Json::Text(timestamp)));
    fields.push(field_of("file", file));
    fields.push(text_field("function", &msg.record.function));
    fields.push(text_field("message", &msg.record.message));
    fields.push(text_field("log_type", &msg.record.level.name));
    fields.push(count_field("line", msg.record.line));
    fields.push(text_field("module", &msg.record.module));
    fields.push(text_field("service_name", &msg.service_name));
    fields.push(count_field("proc_id", msg.record.process.id));
    fields.push(field_of("exception", exception));
    let doc = Json::object(fields);
    assert(doc@->Object_0 =~= document(msg@, timestamp@)->Object_0);
    doc
}

/// Builds the document of a log message.
pub fn json_from_logmsg(msg: &LogMsg) -> (doc: Json)
    requires
        msg@.record.time.renderable(),
    ensures
        doc@ == document_of(msg@),
{
    let timestamp = msg.record.time.as_rfc3339();
    document_with(msg, timestamp)
}

fn create_directive() -> (action: Json)
    ensures
        action@ == create_action(),
{
    let none: Vec<(String, Json)> = Vec::new();
    let parameters = Json::object(none);
    assert(parameters@->Object_0 =~= Seq::empty());
    let mut fields: Vec<(String, Json)> = Vec::new();
    fields.push(field_of("create", parameters));
    let action = Json::object(fields);
    assert(action@->Object_0 =~= create_action()->Object_0);
    action
}

/// Whether the time of each message can be rendered.
pub fn is_renderable_batch(msgs: &Vec<LogMsg>) -> (renderable: bool)
    ensures
        renderable == all_renderable(views(msgs@)),
{
    let ghost msg_views = views(msgs@);
    let mut i: usize = 0;
    while i < msgs.len()
        invariant
            i <= msgs.len(),
            msg_views == views(msgs@),
            forall|k: int| 0 <= k < i ==> (#[trigger] msg_views[k]).record.time.renderable(),
        decreases msgs.len() - i,
    {
        assert(msg_views[i as int] == msgs[i as int]@);
        if !msgs[i].record.time.is_renderable() {
            assert(!msg_views[i as int].record.time.renderable());
            return false;
        }
        i += 1;
    }
    true
}

/// Builds the body of the bulk request for a batch: two elements for each
/// message, the create directive and the document, in the batch's order. An
/// empty batch gives an empty body.
pub fn make_json_body(msgs: &Vec<LogMsg>) -> (body: Vec<Json>)
    requires
        all_renderable(views(msgs@)),
    ensures
        views(body@) == bulk_body(views(msgs@)),
        body@.len() == 2 * msgs@.len(),
        forall|i: int| 0 <= i < msgs@.len() ==> (#[trigger] body@[2 * i])@ == create_action(),
        forall|i: int|
            0 <= i < msgs@.len() ==> (#[trigger] body@[2 * i + 1])@ == document_of(msgs@[i]@),
{
    let ghost msg_views = views(msgs@);
    let mut body: Vec<Json> = Vec::new();
    let mut i: usize = 0;
    while i < msgs.len()
        invariant
            i <= msgs.len(),
            msg_views == views(msgs@),
            all_renderable(msg_views),
            body@.len() == 2 * i,
            forall|k: int| 0 <= k < i ==> (#[trigger] body@[2 * k])@ == create_action(),
            forall|k: int| 0 <= k < i ==> (#[trigger] body@[2 * k + 1])@ == document_of(msg_views[k]),
        decreases msgs.len() - i,
    {
        assert(msg_views[i as int] == msgs[i as int]@);
        let action = create_directive();
        let doc = json_from_logmsg(&msgs[i]);
        let ghost before = body@;
        body.push(action);
        body.push(doc);
        assert forall|k: int| 0 <= k < i + 1 implies (#[trigger] body@[2 * k])@
            == create_action() by {
            if k < i {
                assert(body@[2 * k] == before[2 * k]);
            }
        }
        assert forall|k: int| 0 <= k < i + 1 implies (#[trigger] body@[2 * k + 1])@ == document_of(
            msg_views[k],
        ) by {
            if k < i {
                assert(body@[2 * k + 1] == before[2 * k + 1]);
            }
        }
        i += 1;
    }
    assert forall|j: int| 0 <= j < body@.len() implies (#[trigger] views(body@)[j]) == bulk_body(
        msg_views,
    )[j] by {
        let k: int = j / 2;
        if j % 2 == 0 {
            assert(j == 2 * k);
            assert(body@[2 * k]@ == create_action());
        } else {
            assert(j == 2 * k + 1);
            assert(body@[2 * k + 1]@ == document_of(msg_views[k]));
        }
    }
    assert(views(body@) =~= bulk_body(msg_views));
    assert forall|i: int| 0 <= i < msgs@.len() implies (#[trigger] body@[2 * i + 1])@
        == document_of(msgs@[i]@) by {
        assert(msg_views[i] == msgs@[i]@);
    }
    body
}

/// The shape of a bulk request's body: twice as many elements as the batch
/// has messages, none for an empty batch, the create directive at each even
/// place and the document of the message at each odd place, in the batch's
/// order.
pub proof fn lemma_bulk_body_alternates(msgs: Seq<LogMsgView>)
    ensures
        bulk_body(msgs).len() == 2 * msgs.len(),
        msgs.len() == 0 ==> bulk_body(msgs) == Seq::<JsonModel>::empty(),
        forall|i: int| 0 <= i < msgs.len() ==> (#[trigger] bulk_body(msgs)[2 * i]) == create_action(),
        forall|i: int|
            0 <= i < msgs.len() ==> (#[trigger] bulk_body(msgs)[2 * i + 1]) == document_of(msgs[i]),
{
    if msgs.len() == 0 {
        assert(bulk_body(msgs) =~= Seq::<JsonModel>::empty());
    }
    assert forall|i: int| 0 <= i < msgs.len() implies (#[trigger] bulk_body(msgs)[2 * i + 1])
        == document_of(msgs[i]) by {
        assert((2 * i + 1) % 2 == 1);
        assert((2 * i + 1) / 2 == i);
    }
    assert forall|i: int| 0 <= i < msgs.len() implies (#[trigger] bulk_body(msgs)[2 * i])
        == create_action() by {
        assert((2 * i) % 2 == 0);
    }
}

/// The directive and the document of a log message have no name twice in
/// any of their objects, if the exception that the message carries has none.
pub proof fn lemma_document_is_well_formed(msg: LogMsgView, timestamp: Seq<char>)
    requires
        msg.record.exception is Some ==> msg.record.exception->0.well_formed(),
    ensures
        document(msg, timestamp).well_formed(),
        create_action().well_formed(),
{
    reveal_strlit("@timestamp");
    reveal_strlit("file");
    reveal_strlit("function");
    reveal_strlit("message");
    reveal_strlit("log_type");
    reveal_strlit("line");
    reveal_strlit("module");
    reveal_strlit("service_name");
    reveal_strlit("proc_id");
    reveal_strlit("exception");
    reveal_strlit("name");
    reveal_strlit("path");
    reveal_strlit("create");
    let file = document(msg, timestamp)->Object_0[1].1->Object_0;
    assert(file[0].0 == "name"@ && mark("name"@) == ('n', 4nat));
    assert(file[1].0 == "path"@ && mark("path"@) == ('p', 4nat));
    assert(distinct_names(file));
    assert(file[0].1.well_formed());
    assert(file[1].1.well_formed());
    let fields = document(msg, timestamp)->Object_0;
    assert(fields[0].0 == "@timestamp"@ && mark("@timestamp"@) == ('@', 10nat));
    assert(fields[1].0 == "file"@ && mark("file"@) == ('f', 4nat));
    assert(fields[2].0 == "function"@ && mark("function"@) == ('f', 8nat));
    assert(fields[3].0 == "message"@ && mark("message"@) == ('m', 7nat));
    assert(fields[4].0 == "log_type"@ && mark("log_type"@) == ('l', 8nat));
    assert(fields[5].0 == "line"@ && mark("line"@) == ('l', 4nat));
    assert(fields[6].0 == "module"@ && mark("module"@) == ('m', 6nat));
    assert(fields[7].0 == "service_name"@ && mark("service_name"@) == ('s', 12nat));
    assert(fields[8].0 == "proc_id"@ && mark("proc_id"@) == ('p', 7nat));
    assert(fields[9].0 == "exception"@ && mark("exception"@) == ('e', 9nat));
    assert(distinct_names(fields));
    assert(fields[0].1.well_formed());
    assert(fields[1].1.well_formed());
    assert(fields[2].1.well_formed());
    assert(fields[3].1.well_formed());
    assert(fields[4].1.well_formed());
    assert(fields[5].1.well_formed());
    assert(fields[6].1.well_formed());
    assert(fields[7].1.well_formed());
    assert(fields[8].1.well_formed());
    assert(fields[9].1.well_formed());
    let parameters = create_action()->Object_0[0].1;
    assert(distinct_names(parameters->Object_0));
    assert(parameters.well_formed());
    let directive = create_action()->Object_0;
    assert(directive[0].0 == "create"@ && mark("create"@) == ('c', 6nat));
    assert(distinct_names(directive));
    assert(directive[0].1.well_formed());
}

} // verus!
