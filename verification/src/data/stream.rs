//! The token stream of a reader as a whole: what a reader makes of a whole
//! series of replies from its parser, and what holds of every such run.

use crate::data::dataset::{DicomDataToken, ReaderState, Reply, Request};
use crate::error::Result;
use vstd::prelude::*;

verus! {

/// The tokens and errors that one call puts out: one or none.
pub open spec fn spec_output(out: Option<Result<DicomDataToken>>) -> Seq<Result<DicomDataToken>> {
    match out {
        Some(token) => seq![token],
        None => Seq::empty(),
    }
}

/// The state of a reader after a series of calls that got the given replies
/// from the parser, one after the other, and all that the calls put out, in
/// order.
pub open spec fn spec_run(state: ReaderState, replies: Seq<Reply>) -> (
    ReaderState,
    Seq<Result<DicomDataToken>>,
)
    decreases replies.len(),
{
    if replies.len() == 0 {
        (state, Seq::empty())
    } else {
        let (next, out) = state.spec_step(replies[0]);
        let (last, rest) = spec_run(next, replies.drop_first());
        (last, spec_output(out) + rest)
    }
}

/// A run over two series of replies, one after the other, is the run over the
/// first followed by the run over the second from where the first ended.
pub proof fn law_run_in_two_parts(state: ReaderState, first: Seq<Reply>, second: Seq<Reply>)
    ensures
        spec_run(state, first + second) == (
            spec_run(spec_run(state, first).0, second).0,
            spec_run(state, first).1 + spec_run(spec_run(state, first).0, second).1,
        ),
    decreases first.len(),
{
    if first.len() == 0 {
        assert(first + second =~= second);
        assert(Seq::<Result<DicomDataToken>>::empty() + spec_run(state, second).1 =~= spec_run(
            state,
            second,
        ).1);
    } else {
        let (next, out) = state.spec_step(first[0]);
        assert((first + second)[0] == first[0]);
        assert((first + second).drop_first() =~= first.drop_first() + second);
        law_run_in_two_parts(next, first.drop_first(), second);
        let a = spec_run(next, first.drop_first());
        let b = spec_run(a.0, second);
        assert(spec_output(out) + (a.1 + b.1) =~= (spec_output(out) + a.1) + b.1);
    }
}

/// Once exhausted, always exhausted: whatever the parser might still reply,
/// an exhausted reader stays as it is and puts out nothing.
pub proof fn law_fused_reader_is_silent(state: ReaderState, replies: Seq<Reply>)
    requires
        state.hard_break,
    ensures
        spec_run(state, replies) == (state, Seq::<Result<DicomDataToken>>::empty()),
    decreases replies.len(),
{
    if replies.len() > 0 {
        law_fused_reader_is_silent(state, replies.drop_first());
        assert(spec_output(None) + Seq::<Result<DicomDataToken>>::empty() =~= Seq::<
            Result<DicomDataToken>,
        >::empty());
    }
}

/// A call that ends in an error, or that ends the stream, leaves the reader
/// exhausted: it was live, asked for the reply, and gives nothing from then
/// on.
pub proof fn law_error_or_end_fuses(state: ReaderState, reply: Reply)
    requires
        state.spec_asked_for(reply),
        state.spec_step(reply).1 is None || (state.spec_step(reply).1 matches Some(out) && out
            is Err),
    ensures
        state.spec_step(reply).0.hard_break,
        forall|more: Seq<Reply>| #[trigger]
            spec_run(state.spec_step(reply).0, more).1 == Seq::<Result<DicomDataToken>>::empty(),
{
    assert forall|more: Seq<Reply>| #[trigger]
        spec_run(state.spec_step(reply).0, more).1 == Seq::<Result<DicomDataToken>>::empty() by {
        law_fused_reader_is_silent(state.spec_step(reply).0, more);
    }
}

/// In the output of any run, nothing follows an error.
pub proof fn law_error_is_last(state: ReaderState, replies: Seq<Reply>, i: int)
    requires
        0 <= i < spec_run(state, replies).1.len(),
        spec_run(state, replies).1[i] is Err,
    ensures
        i == spec_run(state, replies).1.len() - 1,
        spec_run(state, replies).0.hard_break,
    decreases replies.len(),
{
    let (next, out) = state.spec_step(replies[0]);
    let rest = spec_run(next, replies.drop_first());
    if spec_output(out).len() == 1 && i == 0 {
        law_fused_reader_is_silent(next, replies.drop_first());
    } else {
        law_error_is_last(next, replies.drop_first(), i - spec_output(out).len());
    }
}

/// Whether a token is the header of a primitive element.
pub open spec fn spec_is_element_header(out: Result<DicomDataToken>) -> bool {
    out matches Ok(token) && token is ElementHeader
}

/// Whether a token is the value of a primitive element.
pub open spec fn spec_is_primitive_value(out: Result<DicomDataToken>) -> bool {
    out matches Ok(token) && token is PrimitiveValue
}

/// Header, then value: in the output of any run, an element header is
/// followed at once by a value or by an error. Where the run stopped right
/// behind the header, the reader is waiting for that header's value.
pub proof fn law_header_then_value(state: ReaderState, replies: Seq<Reply>, i: int)
    requires
        0 <= i < spec_run(state, replies).1.len(),
        spec_is_element_header(spec_run(state, replies).1[i]),
    ensures
        i + 1 < spec_run(state, replies).1.len() ==> spec_is_primitive_value(
            spec_run(state, replies).1[i + 1],
        ) || spec_run(state, replies).1[i + 1] is Err,
        i + 1 == spec_run(state, replies).1.len() ==> spec_run(state, replies).0.spec_request()
            == Request::Value(spec_run(state, replies).1[i]->Ok_0->ElementHeader_0),
    decreases replies.len(),
{
    let (next, out) = state.spec_step(replies[0]);
    let tail = replies.drop_first();
    if spec_output(out).len() == 1 && i == 0 {
        lemma_value_is_next(next, tail);
    } else {
        law_header_then_value(next, tail, i - spec_output(out).len());
    }
}

/// What a reader that waits for a value puts out first, if anything, is
/// that value or an error; and while it puts out nothing, it keeps waiting.
proof fn lemma_value_is_next(state: ReaderState, replies: Seq<Reply>)
    requires
        state.spec_request() is Value,
    ensures
        spec_run(state, replies).1.len() > 0 ==> spec_is_primitive_value(
            spec_run(state, replies).1[0],
        ) || spec_run(state, replies).1[0] is Err,
        spec_run(state, replies).1.len() == 0 ==> spec_run(state, replies).0.spec_request()
            == state.spec_request(),
    decreases replies.len(),
{
    if replies.len() > 0 {
        if !state.spec_asked_for(replies[0]) {
            lemma_value_is_next(state, replies.drop_first());
            assert(spec_output(None) + spec_run(state, replies.drop_first()).1 =~= spec_run(
                state,
                replies.drop_first(),
            ).1);
        }
    }
}

/// No value without its header: in the output of a run that starts with no
/// value pending, every value stands right behind an element header.
pub proof fn law_value_follows_header(state: ReaderState, replies: Seq<Reply>, i: int)
    requires
        state.last_header is None,
        0 <= i < spec_run(state, replies).1.len(),
        spec_is_primitive_value(spec_run(state, replies).1[i]),
    ensures
        i > 0,
        spec_is_element_header(spec_run(state, replies).1[i - 1]),
    decreases replies.len(),
{
    let (next, out) = state.spec_step(replies[0]);
    let tail = replies.drop_first();
    if next.last_header is None {
        law_value_follows_header(next, tail, i - spec_output(out).len());
    } else {
        // the step put out an element header and a value is pending
        assert(spec_is_element_header(spec_output(out)[0]));
        if i >= 2 {
            lemma_after_pending_value(next, tail, i - 1);
        }
    }
}

/// Behind the first output of a reader that waits for a value, every value
/// stands right behind an element header.
proof fn lemma_after_pending_value(state: ReaderState, replies: Seq<Reply>, i: int)
    requires
        state.spec_request() is Value,
        1 <= i < spec_run(state, replies).1.len(),
        spec_is_primitive_value(spec_run(state, replies).1[i]),
    ensures
        spec_is_element_header(spec_run(state, replies).1[i - 1]),
    decreases replies.len(),
{
    let (next, out) = state.spec_step(replies[0]);
    let tail = replies.drop_first();
    if !state.spec_asked_for(replies[0]) {
        assert(spec_output(None) + spec_run(state, tail).1 =~= spec_run(state, tail).1);
        lemma_after_pending_value(state, tail, i);
    } else {
        law_value_follows_header(next, tail, i - 1);
    }
}

/// By how much a piece of output moves the depth: up by one for the start of
/// a sequence, down by one for its end.
pub open spec fn spec_depth_change(out: Result<DicomDataToken>) -> int {
    match out {
        Ok(DicomDataToken::SequenceStart { .. }) => 1,
        Ok(DicomDataToken::SequenceEnd) => -1,
        _ => 0,
    }
}

/// By how much all of some output moves the depth: the number of sequences
/// that it starts less the number of sequences that it ends.
pub open spec fn spec_depth_drift(output: Seq<Result<DicomDataToken>>) -> int
    decreases output.len(),
{
    if output.len() == 0 {
        0
    } else {
        spec_depth_change(output[0]) + spec_depth_drift(output.drop_first())
    }
}

/// The depth is tracked: over any run, the depth moves by the number of
/// sequences started less the number of sequences ended, but for the
/// multiple of 2^32 that is returned, which is zero as long as the depth
/// does not wrap around.
pub proof fn law_depth_is_tracked(state: ReaderState, replies: Seq<Reply>) -> (wraps: int)
    ensures
        spec_run(state, replies).0.depth == state.depth + spec_depth_drift(
            spec_run(state, replies).1,
        ) + wraps * 0x1_0000_0000,
    decreases replies.len(),
{
    if replies.len() == 0 {
        0
    } else {
        let (next, out) = state.spec_step(replies[0]);
        let rest = spec_run(next, replies.drop_first());
        let later = law_depth_is_tracked(next, replies.drop_first());
        let output = spec_output(out) + rest.1;
        if out is Some {
            assert(output[0] == out->Some_0);
            assert(output.drop_first() =~= rest.1);
        } else {
            assert(output =~= rest.1);
        }
        let now: int = next.depth - state.depth - (if out is Some {
            spec_depth_change(out->Some_0)
        } else {
            0
        });
        assert(now == 0 || now == 0x1_0000_0000 || now == -0x1_0000_0000);
        later + now / 0x1_0000_0000
    }
}

} // verus!
