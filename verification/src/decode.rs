//! The line decoder: one line of the child's output becomes one event.

use vstd::prelude::*;
use crate::event::{CompletionEventView, LanguageModelCompletionEvent, LanguageModelToolUse, ToolUseView};
use crate::json::{as_flag, as_text, json_document, json_flag, json_member, json_shape, json_text, member, parse_json, JsonShape};

verus! {

/// The members of an output record that decide which event it becomes.
///
/// A member that is missing, or that has another type than the one read here,
/// is `None`.
pub struct RecordFields<'a> {
    /// `type`, as text.
    pub kind: Option<&'a str>,
    /// `id`, as text.
    pub id: Option<&'a str>,
    /// `name` as text where the record has a member of that name, else
    /// `tool_name` as text.
    pub name: Option<&'a str>,
    /// `input`, whatever its type.
    pub input: Option<&'a serde_json::Value>,
    /// `raw_input`, as text.
    pub raw_input: Option<&'a str>,
    /// `is_input_complete`, as a boolean.
    pub is_input_complete: Option<bool>,
    /// `content`, as text.
    pub content: Option<&'a str>,
    /// `text`, as text.
    pub text: Option<&'a str>,
}

/// The members of a record, with texts as sequences of characters.
pub struct RecordFieldsView {
    pub kind: Option<Seq<char>>,
    pub id: Option<Seq<char>>,
    pub name: Option<Seq<char>>,
    pub input: Option<serde_json::Value>,
    pub raw_input: Option<Seq<char>>,
    pub is_input_complete: Option<bool>,
    pub content: Option<Seq<char>>,
    pub text: Option<Seq<char>>,
}

/// The characters of an optional text.
pub open spec fn chars_of(text: Option<&str>) -> Option<Seq<char>> {
    match text {
        Some(s) => Some(s@),
        None => None,
    }
}

impl<'a> View for RecordFields<'a> {
    type V = RecordFieldsView;

    open spec fn view(&self) -> RecordFieldsView {
        RecordFieldsView {
            kind: chars_of(self.kind),
            id: chars_of(self.id),
            name: chars_of(self.name),
            input: match self.input {
                Some(value) => Some(*value),
                None => None,
            },
            raw_input: chars_of(self.raw_input),
            is_input_complete: self.is_input_complete,
            content: chars_of(self.content),
            text: chars_of(self.text),
        }
    }
}

impl RecordFieldsView {
    /// Whether the record is a tool invocation with all that one needs: a
    /// `type` of `tool` or `tool_use`, an identifier, a name and an input.
    pub open spec fn is_tool_use(self) -> bool {
        &&& (self.kind == Some("tool"@) || self.kind == Some("tool_use"@))
        &&& self.id is Some
        &&& self.name is Some
        &&& self.input is Some
    }

    /// The tool invocation that the record describes. A missing raw input is
    /// empty, and an input is complete unless the record says otherwise.
    pub open spec fn tool_use(self) -> ToolUseView
        recommends
            self.is_tool_use(),
    {
        ToolUseView {
            id: self.id->0,
            name: self.name->0,
            raw_input: match self.raw_input {
                Some(raw) => raw,
                None => Seq::empty(),
            },
            input: self.input->0,
            is_input_complete: match self.is_input_complete {
                Some(complete) => complete,
                None => true,
            },
        }
    }
}

/// The event for a line whose record, if the line is one, has the members
/// `fields`.
///
/// A complete tool record is a tool invocation. Any other record is the text
/// of its `content`, else of its `text`. A record with neither, and a line
/// that is no record, is the line itself as text.
pub open spec fn event_of_fields(line: Seq<char>, fields: Option<RecordFieldsView>) -> CompletionEventView {
    match fields {
        Some(f) => {
            if f.is_tool_use() {
                CompletionEventView::ToolUse(f.tool_use())
            } else if f.content is Some {
                CompletionEventView::Text(f.content->0)
            } else if f.text is Some {
                CompletionEventView::Text(f.text->0)
            } else {
                CompletionEventView::Text(line)
            }
        },
        None => CompletionEventView::Text(line),
    }
}

/// The text of the member of `value` under `key`, where it has one that is
/// text.
pub open spec fn text_member(value: serde_json::Value, key: Seq<char>) -> Option<Seq<char>> {
    match json_member(value, key) {
        Some(inner) => json_text(inner),
        None => None,
    }
}

/// The truth value of the member of `value` under `key`, where it has one
/// that is a boolean.
pub open spec fn flag_member(value: serde_json::Value, key: Seq<char>) -> Option<bool> {
    match json_member(value, key) {
        Some(inner) => json_flag(inner),
        None => None,
    }
}

/// The members that the decoder reads from a parsed record.
pub open spec fn fields_of(value: serde_json::Value) -> RecordFieldsView {
    RecordFieldsView {
        kind: text_member(value, "type"@),
        id: text_member(value, "id"@),
        name: match json_member(value, "name"@) {
            Some(inner) => json_text(inner),
            None => text_member(value, "tool_name"@),
        },
        input: json_member(value, "input"@),
        raw_input: text_member(value, "raw_input"@),
        is_input_complete: flag_member(value, "is_input_complete"@),
        content: text_member(value, "content"@),
        text: text_member(value, "text"@),
    }
}

/// The event that a line of output decodes to.
pub open spec fn decode_line(line: Seq<char>) -> CompletionEventView {
    event_of_fields(
        line,
        match json_document(line) {
            Some(value) => Some(fields_of(value)),
            None => None,
        },
    )
}

fn text_is(text: &str, literal: &str) -> (same: bool)
    ensures
        same == (text@ == literal@),
{
    let ours: String = text.to_owned();
    let theirs: String = literal.to_owned();
    ours == theirs
}

fn read_text<'a>(value: &'a serde_json::Value, key: &str) -> (text: Option<&'a str>)
    ensures
        chars_of(text) == text_member(*value, key@),
{
    match member(value, key) {
        Some(inner) => as_text(inner),
        None => None,
    }
}

fn read_flag(value: &serde_json::Value, key: &str) -> (flag: Option<bool>)
    ensures
        flag == flag_member(*value, key@),
{
    match member(value, key) {
        Some(inner) => as_flag(inner),
        None => None,
    }
}

/// Reads from a parsed record the members that decide its event.
pub fn read_fields<'a>(value: &'a serde_json::Value) -> (fields: RecordFields<'a>)
    ensures
        fields@ == fields_of(*value),
{
    let name = match member(value, "name") {
        Some(inner) => as_text(inner),
        None => read_text(value, "tool_name"),
    };
    RecordFields {
        kind: read_text(value, "type"),
        id: read_text(value, "id"),
        name,
        input: member(value, "input"),
        raw_input: read_text(value, "raw_input"),
        is_input_complete: read_flag(value, "is_input_complete"),
        content: read_text(value, "content"),
        text: read_text(value, "text"),
    }
}

/// Decides the event for a line, given the members of its record, or `None`
/// where the line is no record.
pub fn event_from_fields(line: &str, fields: Option<RecordFields<'_>>) -> (event: LanguageModelCompletionEvent)
    ensures
        event@ == event_of_fields(
            line@,
            match fields {
                Some(f) => Some(f@),
                None => None,
            },
        ),
{
    if let Some(f) = fields {
        if let Some(kind) = f.kind {
            if text_is(kind, "tool") || text_is(kind, "tool_use") {
                if let (Some(id), Some(name), Some(input)) = (f.id, f.name, f.input) {
                    let raw_input = match f.raw_input {
                        Some(raw) => raw.to_owned(),
                        None => String::new(),
                    };
                    let is_input_complete = match f.is_input_complete {
                        Some(complete) => complete,
                        None => true,
                    };
                    return LanguageModelCompletionEvent::ToolUse(
                        LanguageModelToolUse {
                            id: id.to_owned(),
                            name: name.to_owned(),
                            raw_input,
                            input: input.clone(),
                            is_input_complete,
                        },
                    );
                }
            }
        }
        if let Some(text) = f.content {
            return LanguageModelCompletionEvent::Text(text.to_owned());
        }
        if let Some(text) = f.text {
            return LanguageModelCompletionEvent::Text(text.to_owned());
        }
    }
    LanguageModelCompletionEvent::Text(line.to_owned())
}

/// Decodes one line of the child's output.
///
/// The line is parsed as JSON. A line that does not parse is not an error: it
/// is delivered as text, as it stands.
pub fn parse_line(line: &str) -> (event: LanguageModelCompletionEvent)
    ensures
        event@ == decode_line(line@),
{
    match parse_json(line) {
        Ok(value) => event_from_fields(line, Some(read_fields(&value))),
        Err(_) => event_from_fields(line, None),
    }
}

/// A record that is no complete tool record and has a `content` of text is
/// that text.
pub proof fn lemma_content_record_is_text(line: Seq<char>, fields: RecordFieldsView)
    requires
        !fields.is_tool_use(),
        fields.content is Some,
    ensures
        event_of_fields(line, Some(fields)) == CompletionEventView::Text(fields.content->0),
{
}

/// A record that is no complete tool record, has no `content` of text and has
/// a `text` of text is that text.
pub proof fn lemma_text_record_is_text(line: Seq<char>, fields: RecordFieldsView)
    requires
        !fields.is_tool_use(),
        fields.content is None,
        fields.text is Some,
    ensures
        event_of_fields(line, Some(fields)) == CompletionEventView::Text(fields.text->0),
{
}

/// A line whose record is an object with one member, `content` or `text`,
/// that is a string decodes to the characters of that string.
pub proof fn lemma_single_text_member_is_the_event(
    line: Seq<char>,
    record: serde_json::Value,
    members: Map<Seq<char>, serde_json::Value>,
    key: Seq<char>,
    text: Seq<char>,
)
    requires
        json_document(line) == Some(record),
        json_shape(record) == JsonShape::Object(members),
        key == "content"@ || key == "text"@,
        members.dom() == set![key],
        json_shape(members[key]) == JsonShape::Text(text),
    ensures
        decode_line(line) == CompletionEventView::Text(text),
{
    reveal_strlit("content");
    reveal_strlit("text");
    reveal_strlit("type");
    assert("content"@ != "text"@) by {
        assert("content"@.len() != "text"@.len());
    }
    assert("type"@ != "text"@) by {
        assert("type"@[1] != "text"@[1]);
    }
    assert("type"@ != "content"@) by {
        assert("type"@.len() != "content"@.len());
    }
    assert(!members.dom().contains("type"@));
    assert(fields_of(record).kind is None);
}

/// A line that is not a structured record decodes to itself, as text.
pub proof fn lemma_unparsed_line_is_its_own_text(line: Seq<char>)
    requires
        json_document(line) is None,
    ensures
        decode_line(line) == CompletionEventView::Text(line),
{
}

/// Every line decodes to text or to a tool invocation, never to a stop: only
/// the end of the output stops a stream.
pub proof fn lemma_no_line_stops_the_stream(line: Seq<char>)
    ensures
        !(decode_line(line) is Stop),
{
}

} // verus!
