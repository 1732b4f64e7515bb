//! The life of one call after it was accepted: the child is started and fed,
//! and its output is turned into events, one for each line that is read.
//!
//! The library decides; the caller acts. It starts the process, writes the
//! prompt, reads lines, and reports what came of each.

use vstd::prelude::*;
use crate::decode::{decode_line, parse_line};
use crate::event::{CompletionErrorView, CompletionEventView, LanguageModelCompletionError, LanguageModelCompletionEvent, LanguageModelProviderName, StopReason, PROVIDER_NAME};
use crate::invocation::{Invocation, InvocationView};

verus! {

/// A call that was accepted: the process to start, and the prompt to write to
/// its input before the input is closed.
#[derive(Debug, PartialEq, Eq)]
pub struct Launch {
    pub invocation: Invocation,
    pub prompt: String,
}

/// What an accepted call holds.
pub struct LaunchView {
    pub invocation: InvocationView,
    pub prompt: Seq<char>,
}

impl View for Launch {
    type V = LaunchView;

    open spec fn view(&self) -> LaunchView {
        LaunchView { invocation: self.invocation@, prompt: self.prompt@ }
    }
}

/// What came of starting the child and feeding it the prompt.
#[derive(Clone, Debug, PartialEq, Eq)]
pub enum SpawnOutcome {
    /// The child runs and has taken the whole prompt.
    Started,
    /// The child could not be started; the text says why.
    SpawnFailed(String),
    /// Writing the prompt to the child failed; the text says why.
    WriteFailed(String),
}

/// What came of starting the child and feeding it the prompt.
pub enum SpawnOutcomeView {
    Started,
    SpawnFailed(Seq<char>),
    WriteFailed(Seq<char>),
}

impl View for SpawnOutcome {
    type V = SpawnOutcomeView;

    open spec fn view(&self) -> SpawnOutcomeView {
        match self {
            SpawnOutcome::Started => SpawnOutcomeView::Started,
            SpawnOutcome::SpawnFailed(reason) => SpawnOutcomeView::SpawnFailed(reason@),
            SpawnOutcome::WriteFailed(reason) => SpawnOutcomeView::WriteFailed(reason@),
        }
    }
}

/// What came of reading the next line of the child's output.
#[derive(Clone, Debug, PartialEq, Eq)]
pub enum LineRead {
    /// A line, without its newline.
    Line(String),
    /// The read failed; the text says why.
    Failed(String),
    /// The output has ended.
    End,
}

/// What came of reading the next line of the child's output.
pub enum LineReadView {
    Line(Seq<char>),
    Failed(Seq<char>),
    End,
}

impl View for LineRead {
    type V = LineReadView;

    open spec fn view(&self) -> LineReadView {
        match self {
            LineRead::Line(line) => LineReadView::Line(line@),
            LineRead::Failed(reason) => LineReadView::Failed(reason@),
            LineRead::End => LineReadView::End,
        }
    }
}

/// One item of the stream: an event, or the failure that ends it.
pub type StreamItem = Result<LanguageModelCompletionEvent, LanguageModelCompletionError>;

/// One item of the stream.
pub type StreamItemView = Result<CompletionEventView, CompletionErrorView>;

/// The item, with its texts as sequences of characters.
pub open spec fn item_of(item: Option<StreamItem>) -> Option<StreamItemView> {
    match item {
        Some(Ok(event)) => Some(Ok(event@)),
        Some(Err(error)) => Some(Err(error@)),
        None => None,
    }
}

/// One step of the stream: whether it has ended afterwards, and the item that
/// it delivers, if any.
///
/// A stream that has ended delivers nothing. A line is decoded into an event.
/// A failed read delivers the failure and ends the stream. The end of the
/// output delivers the stop event and ends the stream.
pub open spec fn stream_step(ended: bool, read: LineReadView) -> (bool, Option<StreamItemView>) {
    if ended {
        (true, None)
    } else {
        match read {
            LineReadView::Line(line) => (false, Some(Ok(decode_line(line)))),
            LineReadView::Failed(reason) => (
                true,
                Some(
                    Err(
                        CompletionErrorView::ApiReadResponseError {
                            provider: PROVIDER_NAME@,
                            error: reason,
                        },
                    ),
                ),
            ),
            LineReadView::End => (true, Some(Ok(CompletionEventView::Stop(StopReason::EndTurn)))),
        }
    }
}

/// The items that a stream delivers for a list of reads, taken in order.
pub open spec fn stream_items(ended: bool, reads: Seq<LineReadView>) -> Seq<StreamItemView>
    decreases reads.len(),
{
    if reads.len() == 0 {
        Seq::empty()
    } else {
        let (then_ended, item) = stream_step(ended, reads[0]);
        (match item {
            Some(item) => seq![item],
            None => Seq::empty(),
        }) + stream_items(then_ended, reads.drop_first())
    }
}

/// The reads of a list of lines, one for each.
pub open spec fn line_reads(lines: Seq<Seq<char>>) -> Seq<LineReadView> {
    lines.map_values(|line: Seq<char>| LineReadView::Line(line))
}

/// The events of a list of lines, one for each.
pub open spec fn line_events(lines: Seq<Seq<char>>) -> Seq<StreamItemView> {
    lines.map_values(|line: Seq<char>| Ok::<CompletionEventView, CompletionErrorView>(decode_line(line)))
}

/// The item that ends a stream after a read that was not a line.
pub open spec fn closing_item(read: LineReadView) -> StreamItemView
    recommends
        !(read is Line),
{
    stream_step(false, read).1->0
}

/// The stream that delivers the events of one call.
#[derive(Debug, PartialEq, Eq)]
pub struct EventStream {
    ended: bool,
}

impl View for EventStream {
    type V = bool;

    /// Whether the stream has ended.
    closed spec fn view(&self) -> bool {
        self.ended
    }
}

impl EventStream {
    /// A stream that has not ended.
    pub fn new() -> (stream: EventStream)
        ensures
            !stream@,
    {
        EventStream { ended: false }
    }

    /// Whether the stream has ended. The caller reads no line for a stream
    /// that has.
    pub fn is_done(&self) -> (ended: bool)
        ensures
            ended == self@,
    {
        self.ended
    }

    /// Takes what came of reading the next line and gives the item that the
    /// stream delivers for it, or `None` where the stream has ended before.
    pub fn next_event(&mut self, read: LineRead) -> (item: Option<StreamItem>)
        ensures
            (final(self)@, item_of(item)) == stream_step(old(self)@, read@),
    {
        if self.ended {
            return None;
        }
        match read {
            LineRead::Line(line) => Some(Ok(parse_line(line.as_str()))),
            LineRead::Failed(reason) => {
                self.ended = true;
                Some(
                    Err(
                        LanguageModelCompletionError::ApiReadResponseError {
                            provider: LanguageModelProviderName(PROVIDER_NAME.to_owned()),
                            error: reason,
                        },
                    ),
                )
            },
            LineRead::End => {
                self.ended = true;
                Some(Ok(LanguageModelCompletionEvent::Stop(StopReason::EndTurn)))
            },
        }
    }
}

/// The outcome of a call once the child was started and fed: the stream of
/// its events, or the failure of the call.
pub open spec fn start_of(outcome: SpawnOutcomeView) -> Result<bool, CompletionErrorView> {
    match outcome {
        SpawnOutcomeView::Started => Ok(false),
        SpawnOutcomeView::SpawnFailed(reason) => Err(CompletionErrorView::Other(reason)),
        SpawnOutcomeView::WriteFailed(reason) => Err(CompletionErrorView::Other(reason)),
    }
}

/// The stream that was started, as whether it has ended, or the failure.
pub open spec fn started_of(result: Result<EventStream, LanguageModelCompletionError>) -> Result<
    bool,
    CompletionErrorView,
> {
    match result {
        Ok(stream) => Ok(stream@),
        Err(error) => Err(error@),
    }
}

impl Launch {
    /// Settles the call from what came of starting the child and feeding it.
    ///
    /// Where both went well the call has a stream, which has not ended. Where
    /// either failed the call fails with the reason, and delivers no event.
    pub fn spawn_and_feed(self, outcome: SpawnOutcome) -> (result: Result<
        EventStream,
        LanguageModelCompletionError,
    >)
        ensures
            started_of(result) == start_of(outcome@),
    {
        match outcome {
            SpawnOutcome::Started => Ok(EventStream::new()),
            SpawnOutcome::SpawnFailed(reason) => Err(LanguageModelCompletionError::Other(reason)),
            SpawnOutcome::WriteFailed(reason) => Err(LanguageModelCompletionError::Other(reason)),
        }
    }
}

/// A stream that has ended delivers nothing more, whatever is read.
pub proof fn lemma_ended_stream_is_silent(reads: Seq<LineReadView>)
    ensures
        stream_items(true, reads) == Seq::<StreamItemView>::empty(),
    decreases reads.len(),
{
    if reads.len() > 0 {
        lemma_ended_stream_is_silent(reads.drop_first());
    }
}

/// A stream delivers one event for each line, in order, as long as lines are
/// read.
pub proof fn lemma_lines_are_decoded_in_order(lines: Seq<Seq<char>>, rest: Seq<LineReadView>)
    ensures
        stream_items(false, line_reads(lines) + rest) == line_events(lines) + stream_items(
            false,
            rest,
        ),
    decreases lines.len(),
{
    let reads = line_reads(lines) + rest;
    if lines.len() == 0 {
        assert(reads =~= rest);
        assert(line_events(lines) + stream_items(false, rest) =~= stream_items(false, rest));
    } else {
        lemma_lines_are_decoded_in_order(lines.drop_first(), rest);
        assert(reads[0] == LineReadView::Line(lines[0]));
        assert(reads.drop_first() =~= line_reads(lines.drop_first()) + rest);
        assert(seq![Ok::<CompletionEventView, CompletionErrorView>(decode_line(lines[0]))]
            + line_events(lines.drop_first()) =~= line_events(lines));
        assert(stream_items(false, reads) =~= line_events(lines) + stream_items(false, rest));
    }
}

/// The whole of a stream: after the events of the lines that were read, the
/// first read that is not a line delivers exactly one item, which is the
/// last. At the end of the output that item is the stop event; after a failed
/// read it is the failure. What was delivered before stays as it was.
pub proof fn lemma_stream_ends_once(
    lines: Seq<Seq<char>>,
    last: LineReadView,
    later: Seq<LineReadView>,
)
    requires
        !(last is Line),
    ensures
        stream_items(false, line_reads(lines) + seq![last] + later) == line_events(lines).push(
            closing_item(last),
        ),
        last is End ==> closing_item(last) == Ok::<CompletionEventView, CompletionErrorView>(
            CompletionEventView::Stop(StopReason::EndTurn),
        ),
        last is Failed ==> closing_item(last) == Err::<CompletionEventView, CompletionErrorView>(
            CompletionErrorView::ApiReadResponseError {
                provider: PROVIDER_NAME@,
                error: last->Failed_0,
            },
        ),
{
    let rest = seq![last] + later;
    lemma_lines_are_decoded_in_order(lines, rest);
    lemma_ended_stream_is_silent(later);
    assert(rest.drop_first() =~= later);
    assert(stream_items(false, rest) =~= seq![closing_item(last)]);
    assert(line_reads(lines) + seq![last] + later =~= line_reads(lines) + rest);
    assert(line_events(lines) + seq![closing_item(last)] =~= line_events(lines).push(
        closing_item(last),
    ));
}

} // verus!
