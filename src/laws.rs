//! Properties of the endpointing state machine over whole streams of
//! classifications.
use vstd::prelude::*;
use crate::endpoint::{
    Classification, EndpointConfig, Phase, SessionState, bump, initial_state, next_state, run,
    run_from,
};

verus! {

/// Whether a voice frame occurs in `cs`.
pub open spec fn has_voice(cs: Seq<Classification>) -> bool
    decreases cs.len(),
{
    if cs.len() == 0 {
        false
    } else {
        cs.last() == Classification::Voice || has_voice(cs.drop_last())
    }
}

/// Silent frames after the last voice frame of `cs` (all of them if there is none).
pub open spec fn trailing_silences(cs: Seq<Classification>) -> nat
    decreases cs.len(),
{
    if cs.len() == 0 {
        0
    } else if cs.last() == Classification::Voice {
        0
    } else if cs.last() == Classification::Silence {
        trailing_silences(cs.drop_last()) + 1
    } else {
        trailing_silences(cs.drop_last())
    }
}

/// Speech bursts in `cs`: voice frames that are the first voice frame, or that
/// follow some silence since the voice frame before.
pub open spec fn bursts(cs: Seq<Classification>) -> nat
    decreases cs.len(),
{
    if cs.len() == 0 {
        0
    } else {
        let prev = cs.drop_last();
        let onset = cs.last() == Classification::Voice && (!has_voice(prev)
            || trailing_silences(prev) > 0);
        bursts(prev) + if onset {
            1nat
        } else {
            0nat
        }
    }
}

/// `n` silent frames.
pub open spec fn silences(n: nat) -> Seq<Classification> {
    Seq::new(n, |i: int| Classification::Silence)
}

/// A state that the machine can be in: the session only finishes while awaiting speech.
pub open spec fn well_formed(s: SessionState) -> bool {
    s.finished ==> s.phase == Phase::AwaitingSpeech
}

/// Feeding two streams one after the other is feeding their concatenation.
pub proof fn lemma_run_from_append(
    cfg: EndpointConfig,
    s: SessionState,
    a: Seq<Classification>,
    b: Seq<Classification>,
)
    ensures
        run_from(cfg, s, a + b) == run_from(cfg, run_from(cfg, s, a), b),
    decreases b.len(),
{
    if b.len() == 0 {
        assert(a + b =~= a);
    } else {
        assert((a + b).drop_last() =~= a + b.drop_last());
        assert((a + b).last() == b.last());
        lemma_run_from_append(cfg, s, a, b.drop_last());
    }
}

/// The transition keeps a state well formed.
pub proof fn lemma_next_state_well_formed(cfg: EndpointConfig, s: SessionState, c: Classification)
    requires
        well_formed(s),
    ensures
        well_formed(next_state(cfg, s, c)),
{
}

/// What holds of the state after any stream, measured against the stream.
pub proof fn lemma_run_invariant(cfg: EndpointConfig, cs: Seq<Classification>)
    ensures
        well_formed(run(cfg, cs)),
        !run(cfg, cs).finished ==> run(cfg, cs).silence_run <= trailing_silences(cs),
        !run(cfg, cs).finished && has_voice(cs) && run(cfg, cs).phase == Phase::AwaitingSpeech
            ==> trailing_silences(cs) > 0,
        run(cfg, cs).phase != Phase::AwaitingSpeech ==> has_voice(cs),
        !has_voice(cs) ==> run(cfg, cs).end_confirmations == 0 && !run(cfg, cs).finished,
        run(cfg, cs).end_confirmations + (if run(cfg, cs).phase != Phase::AwaitingSpeech {
            1int
        } else {
            0int
        }) <= bursts(cs),
        run(cfg, cs).finished ==> run(cfg, cs).end_confirmations
            >= cfg.end_confirmation_threshold,
    decreases cs.len(),
{
    if cs.len() > 0 {
        lemma_run_invariant(cfg, cs.drop_last());
    }
}

/// A session never finishes on a stream in which, at every point after some
/// voice, fewer than `silence_threshold` silent frames have followed the last voice.
pub proof fn lemma_no_finish_without_long_silence(cfg: EndpointConfig, cs: Seq<Classification>)
    requires
        forall|i: int|
            0 <= i <= cs.len() && #[trigger] has_voice(cs.take(i)) ==> trailing_silences(
                cs.take(i),
            ) < cfg.silence_threshold,
    ensures
        !run(cfg, cs).finished,
    decreases cs.len(),
{
    if cs.len() > 0 {
        let prev = cs.drop_last();
        assert forall|i: int|
            0 <= i <= prev.len() && #[trigger] has_voice(prev.take(i)) implies trailing_silences(
            prev.take(i),
        ) < cfg.silence_threshold by {
            assert(prev.take(i) =~= cs.take(i));
        }
        lemma_no_finish_without_long_silence(cfg, prev);
        lemma_run_invariant(cfg, prev);
        assert(cs.take(cs.len() as int) =~= cs);
        assert(has_voice(cs.take(cs.len() as int)) ==> trailing_silences(cs.take(cs.len() as int))
            < cfg.silence_threshold);
        assert(run(cfg, cs) == next_state(cfg, run(cfg, prev), cs.last()));
    }
}

/// Finishing takes at least `end_confirmation_threshold` separate speech bursts,
/// each concluded by silence: one burst never ends a session that asks for two.
pub proof fn lemma_finish_needs_confirmed_bursts(cfg: EndpointConfig, cs: Seq<Classification>)
    ensures
        run(cfg, cs).finished ==> cfg.end_confirmation_threshold <= run(cfg, cs).end_confirmations
            <= bursts(cs),
{
    lemma_run_invariant(cfg, cs);
}

proof fn lemma_leading_silence(cfg: EndpointConfig, n: nat)
    ensures
        run(cfg, silences(n)).phase == Phase::AwaitingSpeech,
        run(cfg, silences(n)).end_confirmations == 0,
        !run(cfg, silences(n)).finished,
    decreases n,
{
    if n > 0 {
        assert(silences(n).drop_last() =~= silences((n - 1) as nat));
        lemma_leading_silence(cfg, (n - 1) as nat);
    }
}

/// Silence before the first voice leaves no trace once voice is heard: whatever
/// follows, the session evolves as if the stream had begun with that voice frame.
pub proof fn lemma_leading_silence_forgotten(
    cfg: EndpointConfig,
    n: nat,
    rest: Seq<Classification>,
)
    ensures
        run(cfg, silences(n).push(Classification::Voice)).silence_run == 0,
        run(cfg, silences(n).push(Classification::Voice) + rest) == run(
            cfg,
            seq![Classification::Voice] + rest,
        ),
{
    let v = seq![Classification::Voice];
    lemma_leading_silence(cfg, n);
    assert(silences(n).push(Classification::Voice).drop_last() =~= silences(n));
    assert(v.drop_last() =~= Seq::<Classification>::empty());
    assert(v.last() == Classification::Voice);
    assert(run(cfg, v.drop_last()) == initial_state());
    assert(run(cfg, silences(n).push(Classification::Voice)) == run(cfg, v));
    lemma_run_from_append(cfg, initial_state(), silences(n).push(Classification::Voice), rest);
    lemma_run_from_append(cfg, initial_state(), v, rest);
}

/// Voice while listening only clears the silence count; a second voice frame
/// changes nothing more.
pub proof fn lemma_voice_while_listening(cfg: EndpointConfig, s: SessionState)
    requires
        well_formed(s),
        s.phase == Phase::Listening,
    ensures
        next_state(cfg, s, Classification::Voice).phase == Phase::Listening,
        next_state(cfg, s, Classification::Voice).silence_run == 0,
        next_state(cfg, s, Classification::Voice).end_confirmations == s.end_confirmations,
        next_state(cfg, next_state(cfg, s, Classification::Voice), Classification::Voice)
            == next_state(cfg, s, Classification::Voice),
{
}

proof fn lemma_silence_after_voice(cfg: EndpointConfig, s: SessionState, n: nat)
    requires
        !s.finished,
        s.phase == Phase::Listening,
        s.silence_run == 0,
        n < cfg.silence_threshold,
    ensures
        run_from(cfg, s, silences(n)) == (SessionState {
            phase: if n > 0 && n >= cfg.silence_debounce_threshold {
                Phase::PossiblyEnding
            } else {
                Phase::Listening
            },
            silence_run: n as u64,
            ..s
        }),
    decreases n,
{
    if n > 0 {
        assert(silences(n).drop_last() =~= silences((n - 1) as nat));
        lemma_silence_after_voice(cfg, s, (n - 1) as nat);
    }
}

/// Silence after voice first downgrades `Listening` to `PossiblyEnding` once
/// `silence_debounce_threshold` frames have passed, and, at `silence_threshold`
/// frames, concludes the burst: one more confirmation, back to awaiting speech.
pub proof fn lemma_silence_concludes_burst(cfg: EndpointConfig, s: SessionState, n: nat)
    requires
        !s.finished,
        s.phase == Phase::Listening,
        s.silence_run == 0,
        0 < n <= cfg.silence_threshold,
    ensures
        n >= cfg.silence_debounce_threshold && n < cfg.silence_threshold ==> run_from(
            cfg,
            s,
            silences(n),
        ).phase == Phase::PossiblyEnding,
        n < cfg.silence_debounce_threshold && n < cfg.silence_threshold ==> run_from(cfg, s, silences(n)).phase
            == Phase::Listening,
        n < cfg.silence_threshold ==> run_from(cfg, s, silences(n)).end_confirmations
            == s.end_confirmations,
        n == cfg.silence_threshold ==> run_from(cfg, s, silences(n)).phase
            == Phase::AwaitingSpeech,
        n == cfg.silence_threshold ==> run_from(cfg, s, silences(n)).end_confirmations == bump(
            s.end_confirmations,
        ),
        n == cfg.silence_threshold ==> (run_from(cfg, s, silences(n)).finished <==> bump(
            s.end_confirmations,
        ) >= cfg.end_confirmation_threshold),
{
    if n < cfg.silence_threshold {
        lemma_silence_after_voice(cfg, s, n);
    } else {
        assert(silences(n).drop_last() =~= silences((n - 1) as nat));
        lemma_silence_after_voice(cfg, s, (n - 1) as nat);
    }
}

} // verus!
