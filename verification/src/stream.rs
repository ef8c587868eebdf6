//! What a read of the stream gives back, as plain values.

use crate::views::{distinct_names, option_view, views};
use vstd::prelude::*;

verus! {

/// A value as the stream's backend sends it.
#[derive(Debug, PartialEq)]
pub enum WireValue {
    Nil,
    Int(i64),
    /// Arbitrary bytes.
    BulkString(Vec<u8>),
    SimpleString(String),
    Okay,
    /// A value of any other kind.
    Other,
}

pub enum WireValueView {
    Nil,
    Int(i64),
    BulkString(Seq<u8>),
    SimpleString(Seq<char>),
    Okay,
    Other,
}

impl View for WireValue {
    type V = WireValueView;

    open spec fn view(&self) -> WireValueView {
        match self {
            WireValue::Nil => WireValueView::Nil,
            WireValue::Int(value) => WireValueView::Int(*value),
            WireValue::BulkString(bytes) => WireValueView::BulkString(bytes@),
            WireValue::SimpleString(text) => WireValueView::SimpleString(text@),
            WireValue::Okay => WireValueView::Okay,
            WireValue::Other => WireValueView::Other,
        }
    }
}

impl Clone for WireValue {
    fn clone(&self) -> (copy: WireValue)
        ensures
            copy@ == self@,
    {
        match self {
            WireValue::Nil => WireValue::Nil,
            WireValue::Int(value) => WireValue::Int(*value),
            WireValue::BulkString(bytes) => {
                let copy = bytes.clone();
                assert(copy@ =~= bytes@);
                WireValue::BulkString(copy)
            },
            WireValue::SimpleString(text) => WireValue::SimpleString(text.clone()),
            WireValue::Okay => WireValue::Okay,
            WireValue::Other => WireValue::Other,
        }
    }
}

/// The value of the first field called `name` among `fields`.
pub open spec fn first_value(fields: Seq<(Seq<char>, WireValueView)>, name: Seq<char>) -> Option<
    WireValueView,
>
    decreases fields.len(),
{
    if fields.len() == 0 {
        None
    } else if fields[0].0 == name {
        Some(fields[0].1)
    } else {
        first_value(fields.drop_first(), name)
    }
}

/// The fields of an entry, each by its name and value.
pub open spec fn field_views(fields: Seq<(String, WireValue)>) -> Seq<(Seq<char>, WireValueView)> {
    fields.map_values(|field: (String, WireValue)| (field.0@, field.1@))
}

/// One entry of a stream: its id and its fields. A field is looked up by its
/// first occurrence.
#[derive(Debug, Clone, PartialEq)]
pub struct StreamEntry {
    pub id: String,
    pub fields: Vec<(String, WireValue)>,
}

pub struct StreamEntryView {
    pub id: Seq<char>,
    pub fields: Seq<(Seq<char>, WireValueView)>,
}

impl View for StreamEntry {
    type V = StreamEntryView;

    open spec fn view(&self) -> StreamEntryView {
        StreamEntryView { id: self.id@, fields: field_views(self.fields@) }
    }
}

impl StreamEntryView {
    /// The value of the first field called `name`.
    pub open spec fn field(self, name: Seq<char>) -> Option<WireValueView> {
        first_value(self.fields, name)
    }

    /// Whether no name occurs twice among the fields. An entry that was read
    /// from the stream is so, and the order of its fields then has no part
    /// in what a lookup finds.
    pub open spec fn well_formed(self) -> bool {
        distinct_names(self.fields)
    }
}

/// In an entry without a name twice, every field is the one that a lookup of
/// its name finds, wherever it stands.
pub proof fn lemma_field_of_well_formed_entry(entry: StreamEntryView, at: int)
    requires
        entry.well_formed(),
        0 <= at < entry.fields.len(),
    ensures
        entry.field(entry.fields[at].0) == Some(entry.fields[at].1),
{
    lemma_first_value_at(entry.fields, at);
}

proof fn lemma_first_value_at(fields: Seq<(Seq<char>, WireValueView)>, at: int)
    requires
        distinct_names(fields),
        0 <= at < fields.len(),
    ensures
        first_value(fields, fields[at].0) == Some(fields[at].1),
    decreases at,
{
    if at > 0 {
        let rest = fields.drop_first();
        assert(rest[at - 1] == fields[at]);
        assert(fields[0].0 != fields[at].0);
        assert forall|i: int, j: int| 0 <= i < j < rest.len() implies (#[trigger] rest[i]).0 != (
        #[trigger] rest[j]).0 by {
            assert(rest[i] == fields[i + 1]);
            assert(rest[j] == fields[j + 1]);
        }
        lemma_first_value_at(rest, at - 1);
    }
}

impl StreamEntry {
    /// The value of the first field called `name`.
    pub fn field(&self, name: &str) -> (value: Option<&WireValue>)
        ensures
            option_view(value) == self@.field(name@),
    {
        let wanted = String::from_str(name);
        let mut i: usize = 0;
        proof {
            assert(self@.fields.skip(0) =~= self@.fields);
        }
        while i < self.fields.len()
            invariant
                i <= self.fields.len(),
                wanted@ == name@,
                first_value(self@.fields, name@) == first_value(self@.fields.skip(i as int), name@),
            decreases self.fields.len() - i,
        {
            let ghost rest = self@.fields.skip(i as int);
            assert(rest[0] == (self.fields[i as int].0@, self.fields[i as int].1@));
            if self.fields[i].0 == wanted {
                return Some(&self.fields[i].1);
            }
            assert(rest.drop_first() =~= self@.fields.skip(i + 1));
            i += 1;
        }
        None
    }
}

/// The entries that a read gave for one key of the stream.
#[derive(Debug, Clone, PartialEq)]
pub struct StreamKey {
    pub key: String,
    pub ids: Vec<StreamEntry>,
}

pub struct StreamKeyView {
    pub key: Seq<char>,
    pub ids: Seq<StreamEntryView>,
}

impl View for StreamKey {
    type V = StreamKeyView;

    open spec fn view(&self) -> StreamKeyView {
        StreamKeyView { key: self.key@, ids: views(self.ids@) }
    }
}

/// What a read gave: the entries of each key that had any.
#[derive(Debug, Clone, PartialEq)]
pub struct StreamReply {
    pub keys: Vec<StreamKey>,
}

pub struct StreamReplyView {
    pub keys: Seq<StreamKeyView>,
}

impl View for StreamReply {
    type V = StreamReplyView;

    open spec fn view(&self) -> StreamReplyView {
        StreamReplyView { keys: views(self.keys@) }
    }
}

} // verus!
