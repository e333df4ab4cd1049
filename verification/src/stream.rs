//! Streamed completions: server-sent events, relayed as they are and tracked on the way.

use crate::completion::{completion_of, kept_line, read_completion, Completion, CompletionView};
use crate::json::{doc_text, field_of, json_doc, parse_text, print_value, text_doc, JsonDoc};
use crate::text::{after_prefix, lines, same_text, split_lines, strip_prefix};
use serde_json::Value;
use vstd::prelude::*;
use vstd::string::*;
use vstd::utf8::*;

verus! {

// Events
/// Whether two line feeds in a row stand at a position: the end of a line and an empty line.
pub open spec fn ends_event(bytes: Seq<u8>, at: int) -> bool {
    0 <= at < bytes.len() - 1 && bytes[at] == 10 && bytes[at + 1] == 10
}

/// The position at or behind `from` where the first event ends; the length of the bytes if none
/// does.
pub open spec fn event_end(bytes: Seq<u8>, from: nat) -> nat
    decreases bytes.len() - from,
{
    if from >= bytes.len() {
        bytes.len()
    } else if ends_event(bytes, from as int) {
        from
    } else {
        event_end(bytes, from + 1)
    }
}

/// The events that some bytes hold whole, without the empty lines that end them.
pub open spec fn events(bytes: Seq<u8>) -> Seq<Seq<u8>>
    decreases bytes.len(),
{
    let end = event_end(bytes, 0);
    if end + 1 < bytes.len() {
        seq![bytes.take(end as int)] + events(bytes.skip(end + 2int))
    } else {
        seq![]
    }
}

/// What some bytes hold behind the last whole event.
pub open spec fn remainder(bytes: Seq<u8>) -> Seq<u8>
    decreases bytes.len(),
{
    let end = event_end(bytes, 0);
    if end + 1 < bytes.len() {
        remainder(bytes.skip(end + 2int))
    } else {
        bytes
    }
}

/// An event with the empty line that ends it.
pub open spec fn framed(event: Seq<u8>) -> Seq<u8> {
    event + seq![10u8, 10u8]
}

/// Events with the empty lines that end them.
pub open spec fn all_framed(events: Seq<Seq<u8>>) -> Seq<Seq<u8>> {
    Seq::new(events.len(), |i: int| framed(events[i]))
}

/// What some buffers hold.
pub open spec fn byte_runs(buffers: Seq<Vec<u8>>) -> Seq<Seq<u8>> {
    Seq::new(buffers.len(), |i: int| buffers[i]@)
}

/// Runs of bytes, one behind the other.
pub open spec fn joined(runs: Seq<Seq<u8>>) -> Seq<u8>
    decreases runs.len(),
{
    if runs.len() == 0 {
        seq![]
    } else {
        joined(runs.drop_last()) + runs.last()
    }
}

// Tracking
/// What has been tracked of a stream.
#[verifier::ext_equal]
pub struct TrackView {
    /// The reply so far.
    pub reply: Seq<char>,
    /// The last line on tokens or cost; empty while there was none.
    pub usage: Seq<char>,
    /// The errors that chunks told of, as JSON text.
    pub errors: Seq<Seq<char>>,
}

/// Nothing tracked yet.
pub open spec fn untracked() -> TrackView {
    TrackView { reply: Seq::empty(), usage: Seq::empty(), errors: Seq::empty() }
}

/// What is tracked behind a chunk: its piece of the reply is added, and its line on tokens or
/// cost, if it has one, takes the place of the last.
pub open spec fn after_chunk(track: TrackView, chunk: CompletionView) -> TrackView {
    TrackView {
        reply: match chunk.content {
            Some(piece) => track.reply + piece,
            None => track.reply,
        },
        usage: match kept_line(chunk) {
            Some(line) => line,
            None => track.usage,
        },
        errors: track.errors,
    }
}

/// What is tracked behind the document of a chunk. One that has an `error` is passed over, but for
/// the error.
pub open spec fn after_doc(track: TrackView, doc: JsonDoc) -> TrackView {
    match doc.field("error"@) {
        Some(error) => TrackView { errors: track.errors.push(doc_text(error)), ..track },
        None => after_chunk(track, completion_of(doc, "delta"@)),
    }
}

/// What is tracked behind a line of an event. Only a line that starts with `data: ` counts, and
/// of those not the one that marks the end, nor one that holds no JSON.
pub open spec fn after_line(track: TrackView, line: Seq<char>) -> TrackView {
    match after_prefix(line, "data: "@) {
        Some(data) => if data == "[DONE]"@ {
            track
        } else {
            match text_doc(data) {
                Some(doc) => after_doc(track, doc),
                None => track,
            }
        },
        None => track,
    }
}

/// What is tracked behind some lines.
pub open spec fn after_lines(track: TrackView, lines: Seq<Seq<char>>) -> TrackView
    decreases lines.len(),
{
    if lines.len() == 0 {
        track
    } else {
        after_line(after_lines(track, lines.drop_last()), lines.last())
    }
}

/// What `String::from_utf8_lossy` makes of bytes.
pub uninterp spec fn lossy(bytes: Seq<u8>) -> Seq<char>;

/// `String::from_utf8_lossy` decodes UTF-8 and puts replacement characters for what is none.
#[verifier::external_body]
fn lossy_text(bytes: &[u8]) -> (text: String)
    ensures
        text@ == lossy(bytes@),
        valid_utf8(bytes@) ==> text@ == decode_utf8(bytes@),
{
    String::from_utf8_lossy(bytes).into_owned()
}

/// What is tracked behind an event.
pub open spec fn after_event(track: TrackView, event: Seq<u8>) -> TrackView {
    after_lines(track, lines(lossy(event)))
}

/// What is tracked behind some events.
pub open spec fn after_events(track: TrackView, events: Seq<Seq<u8>>) -> TrackView
    decreases events.len(),
{
    if events.len() == 0 {
        track
    } else {
        after_event(after_events(track, events.drop_last()), events.last())
    }
}

/// Relays a stream event by event and tracks what it says.
pub struct StreamTracker {
    buffer: Vec<u8>,
    reply: String,
    usage: String,
    errors: Vec<String>,
}

/// What is left at the end of a stream.
pub struct StreamEnd {
    /// The bytes that are still to be relayed.
    pub rest: Vec<u8>,
    /// The error that is to be handed on behind them, if the stream broke off.
    pub failure: Option<String>,
    /// The reply, unless it is empty.
    pub reply: Option<String>,
    /// The last line on tokens or cost, unless there was none.
    pub usage: Option<String>,
}

/// A text, unless it is empty.
pub open spec fn unless_empty(text: Seq<char>) -> Option<Seq<char>> {
    if text.len() == 0 {
        None
    } else {
        Some(text)
    }
}

fn keep_unless_empty(text: String) -> (kept: Option<String>)
    ensures
        kept.deep_view() == unless_empty(text@),
{
    if text.as_str().is_empty() {
        None
    } else {
        Some(text)
    }
}

proof fn lemma_event_end(bytes: Seq<u8>, from: nat, end: nat)
    requires
        from <= end <= bytes.len(),
        forall|i: int| from <= i < end ==> !ends_event(bytes, i),
        end < bytes.len() ==> ends_event(bytes, end as int),
    ensures
        event_end(bytes, from) == end,
    decreases end - from,
{
    if from < end {
        assert(!ends_event(bytes, from as int));
        lemma_event_end(bytes, from + 1, end);
    }
}

proof fn lemma_event_end_meaning(bytes: Seq<u8>, from: nat)
    requires
        from <= bytes.len(),
    ensures
        from <= event_end(bytes, from) <= bytes.len(),
        forall|i: int| from <= i < event_end(bytes, from) ==> !ends_event(bytes, i),
        event_end(bytes, from) < bytes.len() ==> ends_event(bytes, event_end(bytes, from) as int),
    decreases bytes.len() - from,
{
    if from < bytes.len() && !ends_event(bytes, from as int) {
        lemma_event_end_meaning(bytes, from + 1);
    }
}

fn part_of(bytes: &Vec<u8>, from: usize, to: usize) -> (part: Vec<u8>)
    requires
        from <= to <= bytes.len(),
    ensures
        part@ == bytes@.subrange(from as int, to as int),
{
    let mut part: Vec<u8> = Vec::new();
    let mut i: usize = from;
    while i < to
        invariant
            from <= i <= to <= bytes.len(),
            part@ == bytes@.subrange(from as int, i as int),
        decreases to - i,
    {
        part.push(bytes[i]);
        assert(bytes@.subrange(from as int, i + 1) == bytes@.subrange(from as int, i as int).push(
            bytes@[i as int],
        ));
        i += 1;
    }
    part
}

impl StreamTracker {
    /// The bytes that came in and were not relayed yet.
    pub closed spec fn pending(self) -> Seq<u8> {
        self.buffer@
    }

    /// What has been tracked.
    pub closed spec fn track(self) -> TrackView {
        TrackView { reply: self.reply@, usage: self.usage@, errors: self.errors.deep_view() }
    }

    /// A stream of which nothing has come.
    pub fn new() -> (tracker: StreamTracker)
        ensures
            tracker.pending() == Seq::<u8>::empty(),
            tracker.track() == untracked(),
    {
        let errors: Vec<String> = Vec::new();
        assert(errors.deep_view() == Seq::<Seq<char>>::empty());
        StreamTracker { buffer: Vec::new(), reply: String::new(), usage: String::new(), errors }
    }

    /// Tracks what a chunk says.
    pub fn track_chunk(&mut self, chunk: &Completion)
        ensures
            final(self).pending() == old(self).pending(),
            final(self).track() == after_chunk(old(self).track(), chunk@),
    {
        if let Some(piece) = &chunk.content {
            self.reply.append(piece.as_str());
        }
        if let Some(line) = chunk.kept_line() {
            self.usage = line;
        }
    }

    /// Tracks what the JSON value of a chunk says.
    pub fn track_value(&mut self, value: &Value)
        ensures
            final(self).pending() == old(self).pending(),
            final(self).track() == after_doc(old(self).track(), json_doc(*value)),
    {
        if let Some(error) = field_of(value, "error") {
            let ghost before = self.errors.deep_view();
            self.errors.push(print_value(error));
            assert(self.errors.deep_view() == before.push(
                doc_text(json_doc(*value).field("error"@)->0),
            ));
            return;
        }
        let chunk = read_completion(value, "delta");
        self.track_chunk(&chunk);
    }

    fn track_line(&mut self, line: &str)
        ensures
            final(self).pending() == old(self).pending(),
            final(self).track() == after_line(old(self).track(), line@),
    {
        if let Some(data) = strip_prefix(line, "data: ") {
            if same_text(data.as_str(), "[DONE]") {
                return;
            }
            if let Some(value) = parse_text(data.as_str()) {
                self.track_value(&value);
            }
        }
    }

    /// Tracks what an event says, given its text.
    pub fn track_text(&mut self, text: &str)
        ensures
            final(self).pending() == old(self).pending(),
            final(self).track() == after_lines(old(self).track(), lines(text@)),
    {
        let found = split_lines(text);
        let ghost all = found.deep_view();
        let ghost before = self.track();
        let mut i: usize = 0;
        while i < found.len()
            invariant
                i <= found.len(),
                all == found.deep_view(),
                self.pending() == old(self).pending(),
                self.track() == after_lines(before, all.take(i as int)),
            decreases found.len() - i,
        {
            self.track_line(found[i].as_str());
            assert(all.take(i + 1).drop_last() == all.take(i as int));
            i += 1;
        }
        assert(all.take(all.len() as int) == all);
    }

    /// Takes in the next bytes of the stream. Every event that is whole by then is tracked and
    /// handed out, with the empty line that ends it; the rest is held back.
    ///
    /// What was held back, followed by the bytes, is what is handed out, followed by what is held
    /// back now.
    pub fn feed(&mut self, bytes: &[u8]) -> (out: Vec<Vec<u8>>)
        ensures
            byte_runs(out@) == all_framed(events(old(self).pending() + bytes@)),
            final(self).pending() == remainder(old(self).pending() + bytes@),
            final(self).track() == after_events(
                old(self).track(),
                events(old(self).pending() + bytes@),
            ),
            joined(byte_runs(out@)) + final(self).pending() == old(self).pending() + bytes@,
    {
        let ghost all = self.pending() + bytes@;
        let ghost before = self.track();
        let mut data: Vec<u8> = part_of(&self.buffer, 0, self.buffer.len());
        data.extend_from_slice(bytes);
        assert(data@ == all);
        let mut out: Vec<Vec<u8>> = Vec::new();
        let ghost mut done: Seq<Seq<u8>> = Seq::empty();
        let mut start: usize = 0;
        let mut i: usize = 0;
        assert(all.skip(0) == all);
        while i < data.len()
            invariant
                data@ == all,
                start <= i <= data.len() + 1,
                start <= data.len(),
                forall|j: int| start <= j < i ==> !ends_event(all, j),
                done + events(all.skip(start as int)) == events(all),
                remainder(all.skip(start as int)) == remainder(all),
                byte_runs(out@) == all_framed(done),
                self.pending() == old(self).pending(),
                self.track() == after_events(before, done),
            decreases data.len() + 1 - i,
        {
            if data[i] == 10 && i + 1 < data.len() && data[i + 1] == 10 {
                let ghost rest = all.skip(start as int);
                let ghost out_before = out@;
                let event = part_of(&data, start, i);
                self.track_text(lossy_text(event.as_slice()).as_str());
                out.push(part_of(&data, start, i + 2));
                proof {
                    assert forall|j: int| 0 <= j < i - start implies !ends_event(rest, j) by {
                        assert(!ends_event(all, start + j));
                    }
                    assert(ends_event(rest, i - start));
                    lemma_event_end(rest, 0, (i - start) as nat);
                    assert(rest.take(i - start) == event@);
                    assert(rest.skip(i - start + 2) == all.skip(i + 2));
                    assert(done.push(event@).drop_last() == done);
                    assert(framed(event@) == all.subrange(start as int, i + 2));
                    assert(byte_runs(out@) == byte_runs(out_before).push(framed(event@)));
                    assert(all_framed(done.push(event@)) == all_framed(done).push(framed(event@)));
                    assert(done.push(event@) + events(all.skip(i + 2)) == done + events(rest));
                    done = done.push(event@);
                }
                start = i + 2;
                i = i + 2;
            } else {
                i += 1;
            }
        }
        proof {
            let rest = all.skip(start as int);
            assert forall|j: int| 0 <= j < rest.len() implies !ends_event(rest, j) by {
                assert(!ends_event(all, start + j));
            }
            lemma_event_end(rest, 0, rest.len());
            assert(done + events(rest) == done);
            law_events_make_up_the_stream(all);
        }
        self.buffer = part_of(&data, start, data.len());
        out
    }

    /// The errors that chunks told of so far, in order, as JSON text.
    pub fn errors(&self) -> (errors: &Vec<String>)
        ensures
            errors.deep_view() == self.track().errors,
    {
        &self.errors
    }

    /// Ends a stream that came to its end: the bytes behind the last whole event are still to be
    /// relayed.
    pub fn finish(self) -> (end: StreamEnd)
        ensures
            end.rest@ == self.pending(),
            end.failure is None,
            end.reply.deep_view() == unless_empty(self.track().reply),
            end.usage.deep_view() == unless_empty(self.track().usage),
    {
        StreamEnd {
            rest: self.buffer,
            failure: None,
            reply: keep_unless_empty(self.reply),
            usage: keep_unless_empty(self.usage),
        }
    }

    /// Ends a stream that broke off: the error is handed on behind the whole events, and an event
    /// that was cut off is not relayed. What was tracked counts as at any other end.
    pub fn fail(self, error: String) -> (end: StreamEnd)
        ensures
            end.rest@ == Seq::<u8>::empty(),
            end.failure == Some(error),
            end.reply.deep_view() == unless_empty(self.track().reply),
            end.usage.deep_view() == unless_empty(self.track().usage),
    {
        StreamEnd {
            rest: Vec::new(),
            failure: Some(error),
            reply: keep_unless_empty(self.reply),
            usage: keep_unless_empty(self.usage),
        }
    }
}

// Laws
proof fn lemma_joined_first(first: Seq<u8>, more: Seq<Seq<u8>>)
    ensures
        joined(seq![first] + more) == first + joined(more),
    decreases more.len(),
{
    let runs = seq![first] + more;
    if more.len() == 0 {
        assert(runs.drop_last() == Seq::<Seq<u8>>::empty());
        assert(runs.last() == first);
        assert(joined(runs.drop_last()) == Seq::<u8>::empty());
        assert(joined(runs) == first + joined(more));
    } else {
        assert(runs.drop_last() == seq![first] + more.drop_last());
        assert(runs.last() == more.last());
        lemma_joined_first(first, more.drop_last());
        assert(joined(runs) == first + joined(more));
    }
}

/// The events of some bytes, with the empty lines that end them, followed by the remainder, are
/// the bytes: nothing is lost, added or changed.
pub proof fn law_events_make_up_the_stream(bytes: Seq<u8>)
    ensures
        joined(all_framed(events(bytes))) + remainder(bytes) == bytes,
    decreases bytes.len(),
{
    lemma_event_end_meaning(bytes, 0);
    let end = event_end(bytes, 0) as int;
    if end < bytes.len() {
        let rest = bytes.skip(end + 2);
        law_events_make_up_the_stream(rest);
        let first = bytes.take(end);
        assert(events(bytes) == seq![first] + events(rest));
        assert(all_framed(events(bytes)) == seq![framed(first)] + all_framed(events(rest)));
        lemma_joined_first(framed(first), all_framed(events(rest)));
        assert(joined(all_framed(events(bytes))) + remainder(bytes) == framed(first) + (joined(
            all_framed(events(rest)),
        ) + remainder(rest)));
        assert(framed(first) + rest == bytes);
    } else {
        assert(all_framed(events(bytes)) == Seq::<Seq<u8>>::empty());
        assert(joined(all_framed(events(bytes))) + remainder(bytes) == bytes);
    }
}

proof fn lemma_events_of_more(bytes: Seq<u8>, more: Seq<u8>)
    ensures
        events(bytes + more) == events(bytes) + events(remainder(bytes) + more),
        remainder(bytes + more) == remainder(remainder(bytes) + more),
    decreases bytes.len(),
{
    lemma_event_end_meaning(bytes, 0);
    let end = event_end(bytes, 0) as int;
    if end < bytes.len() {
        let rest = bytes.skip(end + 2);
        let both = bytes + more;
        assert forall|i: int| 0 <= i < end implies !ends_event(both, i) by {
            assert(!ends_event(bytes, i));
        }
        assert(ends_event(both, end));
        lemma_event_end(both, 0, end as nat);
        assert(both.take(end) == bytes.take(end));
        assert(both.skip(end + 2) == rest + more);
        lemma_events_of_more(rest, more);
        assert(events(both) == events(bytes) + events(remainder(bytes) + more));
    } else {
        assert(events(bytes) + events(bytes + more) == events(bytes + more));
    }
}

proof fn lemma_after_more_events(track: TrackView, first: Seq<Seq<u8>>, more: Seq<Seq<u8>>)
    ensures
        after_events(track, first + more) == after_events(after_events(track, first), more),
    decreases more.len(),
{
    if more.len() == 0 {
        assert(first + more == first);
    } else {
        assert((first + more).drop_last() == first + more.drop_last());
        lemma_after_more_events(track, first, more.drop_last());
    }
}

/// What is held back once some runs of bytes have been fed to a new stream, one after the other.
pub open spec fn pending_after(runs: Seq<Seq<u8>>) -> Seq<u8>
    decreases runs.len(),
{
    if runs.len() == 0 {
        seq![]
    } else {
        remainder(pending_after(runs.drop_last()) + runs.last())
    }
}

/// What has been handed out by then.
pub open spec fn out_after(runs: Seq<Seq<u8>>) -> Seq<Seq<u8>>
    decreases runs.len(),
{
    if runs.len() == 0 {
        seq![]
    } else {
        out_after(runs.drop_last()) + all_framed(
            events(pending_after(runs.drop_last()) + runs.last()),
        )
    }
}

/// What has been tracked by then.
pub open spec fn track_after(runs: Seq<Seq<u8>>) -> TrackView
    decreases runs.len(),
{
    if runs.len() == 0 {
        untracked()
    } else {
        after_events(
            track_after(runs.drop_last()),
            events(pending_after(runs.drop_last()) + runs.last()),
        )
    }
}

/// However a stream is cut into the runs of bytes that are fed, the same is handed out, held back
/// and tracked as if it had come in one run; and what is handed out, followed by what is held
/// back, is the stream byte for byte.
pub proof fn law_stream_is_relayed_whole(runs: Seq<Seq<u8>>)
    ensures
        joined(out_after(runs)) + pending_after(runs) == joined(runs),
        out_after(runs) == all_framed(events(joined(runs))),
        pending_after(runs) == remainder(joined(runs)),
        track_after(runs) == after_events(untracked(), events(joined(runs))),
    decreases runs.len(),
{
    if runs.len() == 0 {
        assert(event_end(joined(runs), 0) == 0);
        assert(out_after(runs) == all_framed(events(joined(runs))));
    } else {
        let before = runs.drop_last();
        law_stream_is_relayed_whole(before);
        lemma_events_of_more(joined(before), runs.last());
        let new_events = events(pending_after(before) + runs.last());
        assert(all_framed(events(joined(before)) + new_events) == all_framed(
            events(joined(before)),
        ) + all_framed(new_events));
        lemma_after_more_events(untracked(), events(joined(before)), new_events);
    }
    law_events_make_up_the_stream(joined(runs));
}

} // verus!
