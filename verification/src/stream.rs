//! What holds of a framer over a whole stream of bytes.

use crate::buffer::CAPACITY;
use crate::framer::{
    emitted_sentence, framer_inv, fresh, lemma_step_keeps_inv, step, FramerModel, SentenceModel,
    START, TERMINATOR,
};
use vstd::prelude::*;

verus! {

/// The framer after it has taken the bytes of `input` in order.
pub open spec fn run(m: FramerModel, input: Seq<u8>) -> FramerModel
    decreases input.len(),
{
    if input.len() == 0 {
        m
    } else {
        step(run(m, input.drop_last()), input.last()).0
    }
}

/// The sentences that the framer hands out while it takes the bytes of
/// `input`, in the order in which they are completed.
pub open spec fn emissions(m: FramerModel, input: Seq<u8>) -> Seq<SentenceModel>
    decreases input.len(),
{
    if input.len() == 0 {
        Seq::<SentenceModel>::empty()
    } else {
        let before = emissions(m, input.drop_last());
        match step(run(m, input.drop_last()), input.last()).1 {
            Some(s) => before.push(s),
            None => before,
        }
    }
}

/// A sentence as a receiver sends it: a `$`, bytes that are neither `$` nor
/// terminator, and the terminator, within the buffer's capacity.
pub open spec fn well_formed(sentence: Seq<u8>) -> bool {
    emitted_sentence(SentenceModel { bytes: sentence, truncated: false })
}

/// Taking `a` and then `b` is taking `a + b`.
pub proof fn lemma_run_concat(m: FramerModel, a: Seq<u8>, b: Seq<u8>)
    ensures
        run(m, a + b) == run(run(m, a), b),
        emissions(m, a + b) == emissions(m, a) + emissions(run(m, a), b),
    decreases b.len(),
{
    if b.len() == 0 {
        assert(a + b =~= a);
        assert(emissions(m, a) + emissions(run(m, a), b) =~= emissions(m, a));
    } else {
        lemma_run_concat(m, a, b.drop_last());
        assert((a + b).drop_last() =~= a + b.drop_last());
        assert((a + b).last() == b.last());
        let before = emissions(m, a) + emissions(run(m, a), b.drop_last());
        match step(run(run(m, a), b.drop_last()), b.last()).1 {
            Some(s) => {
                assert(before.push(s) =~= emissions(m, a) + emissions(
                    run(m, a),
                    b.drop_last(),
                ).push(s));
            },
            None => {},
        }
    }
}

/// The buffer never holds more than [`CAPACITY`] bytes: whatever bytes a new
/// framer is given, it stays in a reachable state, and every sentence that it
/// hands out is one that [`emitted_sentence`] describes, with at most
/// [`CAPACITY`] bytes.
pub proof fn lemma_buffer_bounded(m: FramerModel, input: Seq<u8>)
    requires
        framer_inv(m),
    ensures
        framer_inv(run(m, input)),
        run(m, input).buffer.len() <= CAPACITY,
        forall|i: int|
            0 <= i < emissions(m, input).len() ==> emitted_sentence(
                #[trigger] emissions(m, input)[i],
            ),
    decreases input.len(),
{
    if input.len() > 0 {
        lemma_buffer_bounded(m, input.drop_last());
        lemma_step_keeps_inv(run(m, input.drop_last()), input.last());
        let before = emissions(m, input.drop_last());
        assert forall|i: int| 0 <= i < emissions(m, input).len() implies emitted_sentence(
            #[trigger] emissions(m, input)[i],
        ) by {
            if i < before.len() {
                assert(emissions(m, input)[i] == before[i]);
            }
        }
    }
}

/// A full buffer forces a sentence out: with [`CAPACITY`] bytes collected, the
/// next byte that is no `$` completes a truncated sentence of exactly those
/// bytes, and the buffer is empty afterwards.
pub proof fn lemma_full_buffer_emits(m: FramerModel, byte: u8)
    requires
        m.capturing,
        m.buffer.len() == CAPACITY,
        byte != START,
    ensures
        step(m, byte).0 == fresh(),
        step(m, byte).1 == Some(SentenceModel { bytes: m.buffer, truncated: true }),
{
}

/// Capture begins only at a `$`, and ends only with the terminator or on a
/// full buffer: no other byte changes whether a sentence is being collected.
pub proof fn lemma_capture_transitions(m: FramerModel, byte: u8)
    ensures
        !m.capturing && step(m, byte).0.capturing ==> byte == START,
        m.capturing && !step(m, byte).0.capturing ==> byte == TERMINATOR || m.buffer.len()
            >= CAPACITY,
        step(m, byte).1 is Some <==> m.capturing && !step(m, byte).0.capturing,
{
}

/// A `$` starts a new sentence whatever the framer held: the state after it is
/// the same from every state, and the byte completes no sentence.
pub proof fn lemma_start_resets(m: FramerModel)
    ensures
        step(m, START).0 == (FramerModel { capturing: true, buffer: seq![START] }),
        step(m, START).1 is None,
{
}

/// What was collected before a `$` is dropped and never handed out: from the
/// `$` on, two framers behave alike whatever each held before it.
pub proof fn lemma_start_discards_partial(m1: FramerModel, m2: FramerModel, rest: Seq<u8>)
    ensures
        run(m1, seq![START] + rest) == run(m2, seq![START] + rest),
        emissions(m1, seq![START] + rest) == emissions(m2, seq![START] + rest),
{
    let head = seq![START];
    assert(head.drop_last() =~= Seq::<u8>::empty());
    assert(head.last() == START);
    assert(run(m1, head) == step(run(m1, head.drop_last()), START).0);
    assert(run(m2, head) == step(run(m2, head.drop_last()), START).0);
    assert(emissions(m1, head.drop_last()) =~= Seq::<SentenceModel>::empty());
    assert(emissions(m2, head.drop_last()) =~= Seq::<SentenceModel>::empty());
    assert(emissions(m1, head) =~= Seq::<SentenceModel>::empty());
    assert(emissions(m2, head) =~= Seq::<SentenceModel>::empty());
    lemma_run_concat(m1, head, rest);
    lemma_run_concat(m2, head, rest);
}

/// While the bytes of a well-formed sentence come in, all but the last, the
/// framer collects them and hands out nothing.
proof fn lemma_collecting(m: FramerModel, sentence: Seq<u8>, k: int)
    requires
        well_formed(sentence),
        1 <= k < sentence.len(),
    ensures
        run(m, sentence.take(k)) == (FramerModel { capturing: true, buffer: sentence.take(k) }),
        emissions(m, sentence.take(k)) == Seq::<SentenceModel>::empty(),
    decreases k,
{
    let taken = sentence.take(k);
    assert(taken.last() == sentence[k - 1]);
    if k == 1 {
        assert(taken.drop_last() =~= Seq::<u8>::empty());
        assert(taken =~= seq![START]);
        assert(run(m, taken) == step(run(m, taken.drop_last()), taken.last()).0);
        assert(emissions(m, taken.drop_last()) =~= Seq::<SentenceModel>::empty());
    } else {
        lemma_collecting(m, sentence, k - 1);
        assert(taken.drop_last() =~= sentence.take(k - 1));
        assert(sentence.take(k - 1).push(sentence[k - 1]) =~= taken);
    }
}

/// A well-formed sentence comes out as it went in, from whatever state the
/// framer was in, and leaves the framer as new.
pub proof fn lemma_sentence_framed(m: FramerModel, sentence: Seq<u8>)
    requires
        well_formed(sentence),
    ensures
        run(m, sentence) == fresh(),
        emissions(m, sentence) == seq![SentenceModel { bytes: sentence, truncated: false }],
{
    let k = sentence.len() - 1;
    lemma_collecting(m, sentence, k);
    assert(sentence.drop_last() =~= sentence.take(k));
    assert(sentence.take(k).push(sentence.last()) =~= sentence);
    assert(Seq::<SentenceModel>::empty().push(
        SentenceModel { bytes: sentence, truncated: false },
    ) =~= seq![SentenceModel { bytes: sentence, truncated: false }]);
}

/// The same well-formed sentence, given twice to a new framer, comes out twice
/// and the same both times.
pub proof fn lemma_framing_repeats(sentence: Seq<u8>)
    requires
        well_formed(sentence),
    ensures
        emissions(fresh(), sentence) == seq![SentenceModel { bytes: sentence, truncated: false }],
        run(fresh(), sentence) == fresh(),
        emissions(fresh(), sentence + sentence) == seq![
            SentenceModel { bytes: sentence, truncated: false },
            SentenceModel { bytes: sentence, truncated: false },
        ],
{
    lemma_sentence_framed(fresh(), sentence);
    lemma_run_concat(fresh(), sentence, sentence);
    let s = SentenceModel { bytes: sentence, truncated: false };
    assert(seq![s] + seq![s] =~= seq![s, s]);
}

} // verus!
