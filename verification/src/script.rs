//! The reply producer's script: the exact sequence of events streamed for
//! every accepted conversation, and the laws that hold of it.

use vstd::prelude::*;

use crate::encode::sse_frame;
use crate::fixture::fixture_source;
use crate::fixture::fixture_sources;
use crate::fixture::fixture_text;
use crate::fixture::message_content;
use crate::model::PartialMessage;
use crate::model::PartialMessageModel;
use crate::model::SourceModel;
use crate::split::split_message;
use crate::split::split_spaces;

verus! {

/// The event payload carrying one source citation.
pub open spec fn source_event(s: SourceModel) -> PartialMessageModel {
    PartialMessageModel { content: None, source: Some(s), finished: None }
}

/// The event payload carrying one content fragment.
pub open spec fn content_event(w: Seq<char>) -> PartialMessageModel {
    PartialMessageModel { content: Some(w), source: None, finished: None }
}

/// The terminal event payload.
pub open spec fn done_event() -> PartialMessageModel {
    PartialMessageModel { content: None, source: None, finished: Some("DONE"@) }
}

/// The words of the fixture reply text, in their original order.
pub open spec fn fixture_words() -> Seq<Seq<char>> {
    split_spaces(fixture_text())
}

/// The one script the mock ever streams, event by event: the fixture
/// sources in ascending ordinal order, then one content fragment per word
/// of the fixture text in original order, then exactly one done event.
pub open spec fn fixture_script() -> Seq<PartialMessageModel> {
    fixture_sources().map_values(|s: SourceModel| source_event(s)) + fixture_words().map_values(
        |w: Seq<char>| content_event(w),
    ) + seq![done_event()]
}

/// Indexing the script directly: sources first, fragments next, the done
/// event last.
pub proof fn lemma_script_index(i: int)
    requires
        0 <= i < fixture_script().len(),
    ensures
        fixture_script().len() == fixture_sources().len() + fixture_words().len() + 1,
        i < fixture_sources().len() ==> fixture_script()[i] == source_event(fixture_sources()[i]),
        fixture_sources().len() <= i < fixture_sources().len() + fixture_words().len()
            ==> fixture_script()[i] == content_event(fixture_words()[i - fixture_sources().len()]),
        i == fixture_sources().len() + fixture_words().len() ==> fixture_script()[i]
            == done_event(),
{
    let srcs = fixture_sources();
    let words = fixture_words();
    if i < srcs.len() {
        assert(srcs.map_values(|s: SourceModel| source_event(s))[i] == source_event(srcs[i]));
    } else if i < srcs.len() + words.len() {
        assert(words.map_values(|w: Seq<char>| content_event(w))[i - srcs.len()] == content_event(
            words[i - srcs.len()],
        ));
    }
}

/// Builds the scripted reply events, in their streaming order.
pub fn scripted_events() -> (evs: Vec<PartialMessage>)
    ensures
        evs@.len() == fixture_script().len(),
        forall|i: int| 0 <= i < evs@.len() ==> (#[trigger] evs@[i])@ == fixture_script()[i],
{
    let mut evs: Vec<PartialMessage> = Vec::new();
    let mut k: usize = 0;
    while k < 4
        invariant
            k <= 4,
            evs@.len() == k,
            forall|i: int|
                0 <= i < k ==> (#[trigger] evs@[i])@ == source_event(fixture_sources()[i]),
        decreases 4 - k,
    {
        evs.push(PartialMessage::source(fixture_source(k)));
        k += 1;
    }
    let words = split_message(message_content());
    proof {
        assert(words@.map_values(|w: String| w@) == fixture_words());
    }
    let mut j: usize = 0;
    while j < words.len()
        invariant
            j <= words.len(),
            words@.map_values(|w: String| w@) == fixture_words(),
            evs@.len() == 4 + j,
            forall|i: int|
                0 <= i < 4 ==> (#[trigger] evs@[i])@ == source_event(fixture_sources()[i]),
            forall|i: int|
                4 <= i < 4 + j ==> (#[trigger] evs@[i])@ == content_event(fixture_words()[i - 4]),
        decreases words.len() - j,
    {
        let w = words[j].clone();
        proof {
            assert(words@.map_values(|w: String| w@)[j as int] == words@[j as int]@);
        }
        evs.push(PartialMessage::content(w));
        j += 1;
    }
    evs.push(PartialMessage::done());
    proof {
        assert(fixture_words().len() == words@.len());
        assert forall|i: int| 0 <= i < evs@.len() implies (#[trigger] evs@[i])@
            == fixture_script()[i] by {
            lemma_script_index(i);
        }
    }
    evs
}

/// Builds the scripted reply as already-encoded SSE frames, in order.
pub fn reply_frames() -> (frames: Vec<String>)
    ensures
        frames@.len() == fixture_script().len(),
        forall|i: int|
            0 <= i < frames@.len() ==> (#[trigger] frames@[i])@ == sse_frame(fixture_script()[i]),
{
    let evs = scripted_events();
    let mut frames: Vec<String> = Vec::new();
    let mut i: usize = 0;
    while i < evs.len()
        invariant
            i <= evs.len(),
            frames@.len() == i,
            evs@.len() == fixture_script().len(),
            forall|k: int| 0 <= k < evs@.len() ==> (#[trigger] evs@[k])@ == fixture_script()[k],
            forall|k: int|
                0 <= k < i ==> (#[trigger] frames@[k])@ == sse_frame(fixture_script()[k]),
        decreases evs.len() - i,
    {
        let f = evs[i].message();
        frames.push(f);
        i += 1;
    }
    frames
}

/// How many of the three payload fields are present.
pub open spec fn presence_count(m: PartialMessageModel) -> int {
    (if m.content is Some {
        1int
    } else {
        0int
    }) + (if m.source is Some {
        1int
    } else {
        0int
    }) + (if m.finished is Some {
        1int
    } else {
        0int
    })
}

/// Exactly one of `content`, `source` and `finished` is present.
pub open spec fn exactly_one_field(m: PartialMessageModel) -> bool {
    presence_count(m) == 1
}

/// Every event of the script carries exactly one of the three payload
/// fields, so the JSON object of each frame has exactly one non-null
/// field.
pub proof fn lemma_script_exactly_one_field()
    ensures
        forall|i: int|
            0 <= i < fixture_script().len() ==> exactly_one_field(#[trigger] fixture_script()[i]),
{
    assert forall|i: int|
        0 <= i < fixture_script().len() implies exactly_one_field(fixture_script()[i]) by {
        lemma_script_index(i);
    }
}

/// Every frame of the reply stream decodes back to exactly its own
/// event, and that event carries exactly one of the three payload fields.
pub proof fn lemma_stream_frames_round_trip()
    ensures
        forall|i: int|
            0 <= i < fixture_script().len() ==> crate::decode::decode_frame(
                sse_frame(#[trigger] fixture_script()[i]),
            ) == Some(fixture_script()[i]),
{
    assert forall|i: int|
        0 <= i < fixture_script().len() implies crate::decode::decode_frame(
        sse_frame(fixture_script()[i]),
    ) == Some(fixture_script()[i]) by {
        crate::decode::lemma_frame_round_trip(fixture_script()[i]);
    }
}

/// The script is a constant of the fixture: two replies, produced by
/// separate accepted requests, are identical event for event.
pub proof fn lemma_script_deterministic(a: Seq<PartialMessageModel>, b: Seq<PartialMessageModel>)
    requires
        a == fixture_script(),
        b == fixture_script(),
    ensures
        a == b,
{
}

/// The content fragments of the script rejoin, separated by single
/// spaces, to exactly the fixture text.
pub proof fn lemma_fragments_rejoin()
    ensures
        crate::split::join_spaces(fixture_words()) == fixture_text(),
{
    crate::split::lemma_join_split(fixture_text());
}

} // verus!
