//! What holds of the relay and the tracking of a stream, whatever the stream.

use crate::completion::{completion_of, kept_line, CompletionView};
use crate::completion_laws::{law_reply_is_that_of_the_first_choice, says};
use crate::json::{doc_text, text_doc, JsonDoc};
use crate::stream::{
    after_chunk, after_doc, after_events, after_line, after_lines, ends_event, events,
    joined, law_events_make_up_the_stream, law_stream_is_relayed_whole, lossy, out_after,
    pending_after, remainder, track_after, unless_empty, untracked, TrackView,
};
use crate::text::lines;
use crate::text_laws::{law_lines, law_prefix_is_taken_off};
use vstd::prelude::*;
use vstd::seq_lib::*;

verus! {

/// Events with the empty lines that end them, one behind the other.
pub open spec fn on_the_wire(events: Seq<Seq<u8>>) -> Seq<u8> {
    events.map_values(|event: Seq<u8>| event + seq![10u8, 10u8]).flatten()
}

/// Whether two line feeds in a row stand anywhere in some bytes.
pub open spec fn has_empty_line(bytes: Seq<u8>) -> bool {
    exists|i: int| 0 <= i < bytes.len() - 1 && #[trigger] bytes[i] == 10 && bytes[i + 1] == 10
}

proof fn lemma_joined_is_flat(runs: Seq<Seq<u8>>)
    ensures
        joined(runs) == runs.flatten(),
    decreases runs.len(),
{
    if runs.len() > 0 {
        lemma_joined_is_flat(runs.drop_last());
        runs.drop_last().lemma_flatten_push(runs.last());
        assert(runs == runs.drop_last().push(runs.last()));
    }
}

proof fn lemma_wire(bytes: Seq<u8>)
    ensures
        on_the_wire(events(bytes)) + remainder(bytes) == bytes,
{
    law_events_make_up_the_stream(bytes);
    lemma_joined_is_flat(crate::stream::all_framed(events(bytes)));
    assert(crate::stream::all_framed(events(bytes)) == events(bytes).map_values(
        |event: Seq<u8>| event + seq![10u8, 10u8],
    ));
}

proof fn lemma_first_event_end(bytes: Seq<u8>, from: nat)
    requires
        from <= bytes.len(),
    ensures
        from <= crate::stream::event_end(bytes, from) <= bytes.len(),
        forall|i: int|
            from <= i < crate::stream::event_end(bytes, from) ==> !(#[trigger] ends_event(bytes, i)),
        crate::stream::event_end(bytes, from) < bytes.len() ==> ends_event(
            bytes,
            crate::stream::event_end(bytes, from) as int,
        ),
    decreases bytes.len() - from,
{
    if from < bytes.len() && !ends_event(bytes, from as int) {
        lemma_first_event_end(bytes, from + 1);
    }
}

/// The events of some bytes are what stands before each empty line: no event holds an empty line
/// or ends in a line feed, what is behind the last event holds no empty line, and all of them with
/// the empty lines between are the bytes.
pub proof fn law_events_stand_between_empty_lines(bytes: Seq<u8>)
    ensures
        on_the_wire(events(bytes)) + remainder(bytes) == bytes,
        forall|i: int|
            0 <= i < events(bytes).len() ==> {
                let event = #[trigger] events(bytes)[i];
                !has_empty_line(event) && (event.len() == 0 || event.last() != 10)
            },
        !has_empty_line(remainder(bytes)),
    decreases bytes.len(),
{
    lemma_wire(bytes);
    lemma_first_event_end(bytes, 0);
    let end = crate::stream::event_end(bytes, 0) as int;
    if end < bytes.len() {
        let rest = bytes.skip(end + 2);
        let first = bytes.take(end);
        law_events_stand_between_empty_lines(rest);
        assert(events(bytes) == seq![first] + events(rest));
        assert(!has_empty_line(first)) by {
            if has_empty_line(first) {
                let i = choose|i: int|
                    0 <= i < first.len() - 1 && #[trigger] first[i] == 10 && first[i + 1] == 10;
                assert(ends_event(bytes, i));
            }
        }
        assert(first.len() == 0 || first.last() != 10) by {
            if first.len() > 0 && first.last() == 10 {
                assert(ends_event(bytes, end - 1));
            }
        }
        assert forall|i: int| 0 <= i < events(bytes).len() implies {
            let event = #[trigger] events(bytes)[i];
            !has_empty_line(event) && (event.len() == 0 || event.last() != 10)
        } by {
            if i > 0 {
                assert(events(bytes)[i] == events(rest)[i - 1]);
            }
        }
    } else {
        assert(!has_empty_line(bytes)) by {
            if has_empty_line(bytes) {
                let i = choose|i: int|
                    0 <= i < bytes.len() - 1 && #[trigger] bytes[i] == 10 && bytes[i + 1] == 10;
                assert(ends_event(bytes, i));
            }
        }
    }
}

proof fn lemma_first_event(event: Seq<u8>, more: Seq<u8>)
    requires
        !has_empty_line(event),
        event.len() == 0 || event.last() != 10,
    ensures
        events(event + seq![10u8, 10u8] + more) == seq![event] + events(more),
        remainder(event + seq![10u8, 10u8] + more) == remainder(more),
{
    let whole = event + seq![10u8, 10u8] + more;
    lemma_first_event_end(whole, 0);
    let end = crate::stream::event_end(whole, 0) as int;
    assert(ends_event(whole, event.len() as int));
    assert(end <= event.len());
    assert(end == event.len()) by {
        if end < event.len() {
            assert(ends_event(whole, end));
            if end + 1 < event.len() {
                assert(event[end] == 10 && event[end + 1] == 10);
            } else {
                assert(event.last() == 10);
            }
        }
    }
    assert(whole.take(end) == event);
    assert(whole.skip(end + 2) == more);
}

/// Events that are sent, each ended by an empty line, are the events that are found, and what is
/// behind them is what remains.
pub proof fn law_sent_events_are_found(sent: Seq<Seq<u8>>, rest: Seq<u8>)
    requires
        forall|i: int|
            0 <= i < sent.len() ==> {
                let event = #[trigger] sent[i];
                !has_empty_line(event) && (event.len() == 0 || event.last() != 10)
            },
        !has_empty_line(rest),
    ensures
        events(on_the_wire(sent) + rest) == sent,
        remainder(on_the_wire(sent) + rest) == rest,
    decreases sent.len(),
{
    let frame = |event: Seq<u8>| event + seq![10u8, 10u8];
    if sent.len() == 0 {
        assert(on_the_wire(sent) + rest == rest);
        lemma_first_event_end(rest, 0);
        let end = crate::stream::event_end(rest, 0) as int;
        if end < rest.len() {
            assert(rest[end] == 10 && rest[end + 1] == 10);
        }
        assert(events(rest) == sent);
    } else {
        let more = sent.drop_first();
        assert forall|i: int| 0 <= i < more.len() implies {
            let event = #[trigger] more[i];
            !has_empty_line(event) && (event.len() == 0 || event.last() != 10)
        } by {
            assert(more[i] == sent[i + 1]);
        }
        law_sent_events_are_found(more, rest);
        assert(sent.map_values(frame).drop_first() == more.map_values(frame));
        assert(on_the_wire(sent) + rest == sent[0] + seq![10u8, 10u8] + (on_the_wire(more) + rest));
        lemma_first_event(sent[0], on_the_wire(more) + rest);
        assert(seq![sent[0]] + more == sent);
    }
}

/// However a stream is cut into runs of bytes, what is handed out, followed by what is held back,
/// is the stream byte for byte.
pub proof fn law_relay_loses_nothing(runs: Seq<Seq<u8>>)
    ensures
        out_after(runs).flatten() + pending_after(runs) == runs.flatten(),
        !has_empty_line(pending_after(runs)),
{
    law_stream_is_relayed_whole(runs);
    lemma_joined_is_flat(runs);
    lemma_joined_is_flat(out_after(runs));
    law_events_stand_between_empty_lines(joined(runs));
}

/// A chunk adds its piece behind the reply so far, character for character, and a chunk without a
/// piece adds nothing; so the reply grows by the length of the piece and keeps what it was.
pub proof fn law_chunk_adds_its_piece(track: TrackView, chunk: CompletionView)
    ensures
        chunk.content matches Some(piece) ==> {
            let reply = after_chunk(track, chunk).reply;
            &&& reply.len() == track.reply.len() + piece.len()
            &&& reply.take(track.reply.len() as int) == track.reply
            &&& reply.skip(track.reply.len() as int) == piece
        },
        chunk.content is None ==> after_chunk(track, chunk).reply == track.reply,
        kept_line(chunk) matches Some(line) ==> after_chunk(track, chunk).usage == line,
        kept_line(chunk) is None ==> after_chunk(track, chunk).usage == track.usage,
        after_chunk(track, chunk).errors == track.errors,
{
    if let Some(piece) = chunk.content {
        let reply = after_chunk(track, chunk).reply;
        assert(reply.take(track.reply.len() as int) == track.reply);
        assert(reply.skip(track.reply.len() as int) == piece);
    }
}

/// A chunk that tells of an error, even a null one, changes neither the reply nor the line on
/// tokens or cost; the error is noted behind those before it.
pub proof fn law_error_is_noted_only(track: TrackView, fields: Map<Seq<char>, JsonDoc>)
    requires
        fields.contains_key("error"@),
    ensures
        ({
            let after = after_doc(track, JsonDoc::Fields(fields));
            &&& after.reply == track.reply
            &&& after.usage == track.usage
            &&& after.errors == track.errors.push(doc_text(fields["error"@]))
        }),
{
}

/// A chunk without an error adds the text of its first choice, if there is one, to the reply, and
/// its line on tokens or cost, if it has one, is the last.
pub proof fn law_chunk_is_tracked(track: TrackView, doc: JsonDoc, piece: Seq<char>)
    requires
        doc matches JsonDoc::Fields(fields) ==> !fields.contains_key("error"@),
    ensures
        ({
            let after = after_doc(track, doc);
            let line = kept_line(completion_of(doc, "delta"@));
            &&& says(doc, "delta"@, piece) ==> after.reply == track.reply + piece
            &&& (forall|text: Seq<char>| !says(doc, "delta"@, text)) ==> after.reply == track.reply
            &&& after.usage == if line is Some {
                line->0
            } else {
                track.usage
            }
            &&& after.errors == track.errors
        }),
{
    law_reply_is_that_of_the_first_choice(doc, "delta"@);
    law_chunk_adds_its_piece(track, completion_of(doc, "delta"@));
    if let Some(text) = completion_of(doc, "delta"@).content {
        assert(says(doc, "delta"@, text));
        let reply = after_doc(track, doc).reply;
        assert(reply == reply.take(track.reply.len() as int) + reply.skip(
            track.reply.len() as int,
        ));
    }
}

/// A line of JSON behind `data: ` is tracked by what it holds, whatever it is; every other line
/// says nothing.
pub proof fn law_data_lines_are_tracked(track: TrackView, line: Seq<char>, data: Seq<char>)
    ensures
        data != "[DONE]"@ && text_doc(data) is Some ==> after_line(track, "data: "@ + data)
            == after_doc(track, text_doc(data)->0),
        text_doc(data) is None ==> after_line(track, "data: "@ + data) == track,
        after_line(track, "data: "@ + "[DONE]"@) == track,
        (forall|rest: Seq<char>| #[trigger] ("data: "@ + rest) != line) ==> after_line(track, line)
            == track,
{
    law_prefix_is_taken_off("data: "@ + data, "data: "@, data);
    law_prefix_is_taken_off("data: "@ + "[DONE]"@, "data: "@, "[DONE]"@);
    law_prefix_is_taken_off(line, "data: "@, data);
}

proof fn lemma_lines_one_by_one(track: TrackView, first: Seq<char>, more: Seq<Seq<char>>)
    ensures
        after_lines(track, seq![first] + more) == after_lines(after_line(track, first), more),
    decreases more.len(),
{
    let all = seq![first] + more;
    if more.len() == 0 {
        assert(all.drop_last() == Seq::<Seq<char>>::empty());
        assert(after_lines(track, all.drop_last()) == track);
        assert(all.last() == first);
    } else {
        assert(all.drop_last() == seq![first] + more.drop_last());
        lemma_lines_one_by_one(track, first, more.drop_last());
    }
}

/// The lines of an event are tracked one after the other: what a line says comes before what the
/// lines behind it say. An event without text says nothing.
pub proof fn law_lines_are_tracked_in_order(track: TrackView, line: Seq<char>, rest: Seq<char>)
    requires
        !line.contains('\n'),
        line.len() == 0 || line.last() != '\r',
    ensures
        after_lines(track, lines(Seq::empty())) == track,
        line.len() > 0 ==> after_lines(track, lines(line)) == after_line(track, line),
        after_lines(track, lines(line + seq!['\n'] + rest)) == after_lines(
            after_line(track, line),
            lines(rest),
        ),
        after_lines(track, lines(line + seq!['\r', '\n'] + rest)) == after_lines(
            after_line(track, line),
            lines(rest),
        ),
{
    law_lines(line, rest);
    lemma_lines_one_by_one(track, line, lines(rest));
    lemma_lines_one_by_one(track, line, Seq::empty());
    assert(seq![line] + Seq::<Seq<char>>::empty() == seq![line]);
}

/// Events are tracked one after the other.
pub proof fn law_events_are_tracked_in_order(
    track: TrackView,
    before: Seq<Seq<u8>>,
    event: Seq<u8>,
)
    ensures
        after_events(track, Seq::empty()) == track,
        after_events(track, before.push(event)) == after_lines(
            after_events(track, before),
            lines(lossy(event)),
        ),
{
    assert(before.push(event).drop_last() == before);
}

/// Whether an event is one line of JSON behind `data: `, without an error, whose first choice
/// brings a piece of the reply.
pub open spec fn brings(event: Seq<u8>, data: Seq<char>, piece: Seq<char>) -> bool {
    &&& lossy(event) == "data: "@ + data
    &&& !data.contains('\n')
    &&& data != "[DONE]"@
    &&& text_doc(data) matches Some(doc)
    &&& (doc matches JsonDoc::Fields(fields) ==> !fields.contains_key("error"@))
    &&& says(doc, "delta"@, piece)
}

proof fn lemma_one_piece(track: TrackView, event: Seq<u8>, data: Seq<char>, piece: Seq<char>)
    requires
        brings(event, data, piece),
    ensures
        after_lines(track, lines(lossy(event))).reply == track.reply + piece,
{
    let line = "data: "@ + data;
    reveal_strlit("data: ");
    assert(!line.contains('\n')) by {
        if line.contains('\n') {
            let i = line.index_of('\n');
            assert(line[i] == '\n');
            if i >= 6 {
                assert(data[i - 6] == '\n');
            }
        }
    }
    law_lines(line, Seq::empty());
    lemma_lines_one_by_one(track, line, Seq::empty());
    assert(seq![line] + Seq::<Seq<char>>::empty() == seq![line]);
    law_data_lines_are_tracked(track, line, data);
    law_chunk_is_tracked(track, text_doc(data)->0, piece);
}

/// The reply that is tracked over events is the pieces that they bring, in order, one behind the
/// other and character for character; so its length is the sum of theirs.
pub proof fn law_reply_is_all_pieces(
    track: TrackView,
    sent: Seq<Seq<u8>>,
    data: Seq<Seq<char>>,
    pieces: Seq<Seq<char>>,
)
    requires
        sent.len() == data.len() == pieces.len(),
        forall|i: int| 0 <= i < sent.len() ==> #[trigger] brings(sent[i], data[i], pieces[i]),
    ensures
        after_events(track, sent).reply == track.reply + pieces.flatten(),
        after_events(track, sent).reply.len() == pieces.fold_left(
            track.reply.len() as int,
            |sum: int, piece: Seq<char>| sum + piece.len(),
        ),
    decreases sent.len(),
{
    let sum = |sum: int, piece: Seq<char>| sum + piece.len();
    if sent.len() == 0 {
        assert(track.reply + pieces.flatten() == track.reply);
    } else {
        let before = sent.drop_last();
        assert forall|i: int| 0 <= i < before.len() implies #[trigger] brings(
            before[i],
            data.drop_last()[i],
            pieces.drop_last()[i],
        ) by {
            assert(brings(sent[i], data[i], pieces[i]));
        }
        law_reply_is_all_pieces(track, before, data.drop_last(), pieces.drop_last());
        assert(before.push(sent.last()) == sent);
        law_events_are_tracked_in_order(track, before, sent.last());
        let last = sent.len() - 1;
        assert(brings(sent[last], data[last], pieces[last]));
        lemma_one_piece(after_events(track, before), sent[last], data[last], pieces[last]);
        assert(pieces.drop_last().push(pieces.last()) == pieces);
        pieces.drop_last().lemma_flatten_push(pieces.last());
        assert((track.reply + pieces.drop_last().flatten()) + pieces.last() == track.reply + (
        pieces.drop_last().flatten() + pieces.last()));
    }
}

/// A stream of events that each bring a piece of the reply, cut into runs of bytes anywhere, ends
/// in a reply that is all the pieces, in order.
pub proof fn law_streamed_reply_is_all_pieces(
    runs: Seq<Seq<u8>>,
    sent: Seq<Seq<u8>>,
    data: Seq<Seq<char>>,
    pieces: Seq<Seq<char>>,
)
    requires
        runs.flatten() == on_the_wire(sent),
        sent.len() == data.len() == pieces.len(),
        forall|i: int| 0 <= i < sent.len() ==> #[trigger] brings(sent[i], data[i], pieces[i]),
        forall|i: int|
            0 <= i < sent.len() ==> {
                let event = #[trigger] sent[i];
                !has_empty_line(event) && (event.len() == 0 || event.last() != 10)
            },
    ensures
        track_after(runs).reply == pieces.flatten(),
        out_after(runs).flatten() == runs.flatten(),
        pending_after(runs).len() == 0,
{
    law_stream_is_relayed_whole(runs);
    lemma_joined_is_flat(runs);
    lemma_joined_is_flat(out_after(runs));
    law_sent_events_are_found(sent, Seq::empty());
    assert(on_the_wire(sent) + Seq::<u8>::empty() == on_the_wire(sent));
    assert(pending_after(runs) == Seq::<u8>::empty());
    law_reply_is_all_pieces(untracked(), sent, data, pieces);
    assert(untracked().reply + pieces.flatten() == pieces.flatten());
    assert(out_after(runs).flatten() + pending_after(runs) == out_after(runs).flatten());
}

/// At the end a reply, or a line, is kept as it is exactly where it is not empty.
pub proof fn law_what_is_not_empty_is_kept(text: Seq<char>)
    ensures
        text.len() > 0 ==> unless_empty(text) == Some(text),
        text.len() == 0 ==> unless_empty(text) is None,
        untracked().reply.len() == 0,
        untracked().usage.len() == 0,
        untracked().errors.len() == 0,
{
}

} // verus!
