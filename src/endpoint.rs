use vstd::prelude::*;

verus! {

/// Where the session stands with respect to speech.
#[derive(PartialEq, Eq, Structural, Clone, Copy, Debug)]
pub enum Phase {
    /// No confirmed speech since the start or since the last confirmed end.
    AwaitingSpeech,
    /// Speech is being heard.
    Listening,
    /// Speech was heard, and the silence since is long enough to be suspicious.
    PossiblyEnding,
}

/// What the classifier said of one frame.
#[derive(PartialEq, Eq, Structural, Clone, Copy, Debug)]
pub enum Classification {
    Voice,
    Silence,
    /// The classifier could not judge the frame (for instance, a wrong length).
    Invalid,
}

/// What the caller should do after a frame.
#[derive(PartialEq, Eq, Structural, Clone, Copy, Debug)]
pub enum Decision {
    /// No speech is under way: keep reading frames.
    ContinueWaiting,
    /// Speech is under way (or may be ending): keep reading frames.
    ContinueListening,
    /// The session is over: stop reading and transcribe.
    SessionFinished,
}

/// The thresholds of the state machine, all counted in frames (or in bursts).
#[derive(PartialEq, Eq, Structural, Clone, Copy, Debug)]
pub struct EndpointConfig {
    /// Leading silent frames absorbed before silence starts to count.
    pub initial_silence_threshold: u64,
    /// Silent frames after which `Listening` turns into `PossiblyEnding`.
    pub silence_debounce_threshold: u64,
    /// Silent frames since the last voice that conclude a speech burst.
    pub silence_threshold: u64,
    /// Concluded bursts after which the whole session ends.
    pub end_confirmation_threshold: u64,
}

/// The state of one capture session.
#[derive(PartialEq, Eq, Structural, Clone, Copy, Debug)]
pub struct SessionState {
    pub phase: Phase,
    /// Silent frames since the last voice frame.
    pub silence_run: u64,
    /// Silent frames seen while awaiting speech, since the last voice frame.
    pub pre_activation_silence_run: u64,
    /// Times a burst was concluded by enough silence.
    pub end_confirmations: u64,
    /// Whether the terminal decision has been reached.
    pub finished: bool,
}

/// One more, held at the largest value (a counter that never wraps).
pub open spec fn bump(n: u64) -> u64 {
    if n == u64::MAX {
        n
    } else {
        (n + 1) as u64
    }
}

pub open spec fn initial_state() -> SessionState {
    SessionState {
        phase: Phase::AwaitingSpeech,
        silence_run: 0,
        pre_activation_silence_run: 0,
        end_confirmations: 0,
        finished: false,
    }
}

/// The state after a silent frame once the pre-activation grace period is over;
/// `pre` is the pre-activation count as this frame leaves it.
pub open spec fn after_counted_silence(cfg: EndpointConfig, s: SessionState, pre: u64) -> SessionState {
    let run = bump(s.silence_run);
    if run >= cfg.silence_threshold {
        let conf = if s.phase != Phase::AwaitingSpeech {
            bump(s.end_confirmations)
        } else {
            s.end_confirmations
        };
        SessionState {
            phase: Phase::AwaitingSpeech,
            silence_run: run,
            pre_activation_silence_run: pre,
            end_confirmations: conf,
            finished: s.phase != Phase::AwaitingSpeech && conf >= cfg.end_confirmation_threshold,
        }
    } else if run >= cfg.silence_debounce_threshold && s.phase == Phase::Listening {
        SessionState {
            phase: Phase::PossiblyEnding,
            silence_run: run,
            pre_activation_silence_run: pre,
            ..s
        }
    } else {
        SessionState { silence_run: run, pre_activation_silence_run: pre, ..s }
    }
}

/// The transition of the state machine on one classification.
/// A finished session no longer changes.
pub open spec fn next_state(cfg: EndpointConfig, s: SessionState, c: Classification) -> SessionState {
    if s.finished {
        s
    } else {
        match c {
            Classification::Voice => SessionState {
                phase: Phase::Listening,
                silence_run: 0,
                pre_activation_silence_run: 0,
                ..s
            },
            Classification::Invalid => s,
            Classification::Silence => {
                if s.phase == Phase::AwaitingSpeech {
                    let pre = bump(s.pre_activation_silence_run);
                    if pre < cfg.initial_silence_threshold {
                        SessionState { pre_activation_silence_run: pre, ..s }
                    } else {
                        after_counted_silence(cfg, s, pre)
                    }
                } else {
                    after_counted_silence(cfg, s, s.pre_activation_silence_run)
                }
            },
        }
    }
}

/// The decision reported for a state.
pub open spec fn decision_of(s: SessionState) -> Decision {
    if s.finished {
        Decision::SessionFinished
    } else if s.phase == Phase::AwaitingSpeech {
        Decision::ContinueWaiting
    } else {
        Decision::ContinueListening
    }
}

/// The state reached from `s` after the classifications `cs`, in order.
pub open spec fn run_from(cfg: EndpointConfig, s: SessionState, cs: Seq<Classification>) -> SessionState
    decreases cs.len(),
{
    if cs.len() == 0 {
        s
    } else {
        next_state(cfg, run_from(cfg, s, cs.drop_last()), cs.last())
    }
}

/// The state of a fresh session after the classifications `cs`.
pub open spec fn run(cfg: EndpointConfig, cs: Seq<Classification>) -> SessionState {
    run_from(cfg, initial_state(), cs)
}

fn bump_exec(n: u64) -> (r: u64)
    ensures
        r == bump(n),
{
    if n == u64::MAX {
        n
    } else {
        n + 1
    }
}

impl EndpointConfig {
    /// The usual thresholds: 50 leading frames of grace, debounce after 5,
    /// a burst concluded after 70, and the session over after 2 bursts.
    pub fn defaults() -> (r: EndpointConfig)
        ensures
            r.initial_silence_threshold == 50,
            r.silence_debounce_threshold == 5,
            r.silence_threshold == 70,
            r.end_confirmation_threshold == 2,
    {
        EndpointConfig {
            initial_silence_threshold: 50,
            silence_debounce_threshold: 5,
            silence_threshold: 70,
            end_confirmation_threshold: 2,
        }
    }
}

impl SessionState {
    /// A session that has heard nothing yet.
    pub fn new() -> (r: SessionState)
        ensures
            r == initial_state(),
    {
        SessionState {
            phase: Phase::AwaitingSpeech,
            silence_run: 0,
            pre_activation_silence_run: 0,
            end_confirmations: 0,
            finished: false,
        }
    }

    /// The decision that this state calls for.
    pub fn decision(&self) -> (r: Decision)
        ensures
            r == decision_of(*self),
    {
        if self.finished {
            Decision::SessionFinished
        } else if self.phase == Phase::AwaitingSpeech {
            Decision::ContinueWaiting
        } else {
            Decision::ContinueListening
        }
    }

    fn counted_silence(&mut self, cfg: &EndpointConfig, pre: u64)
        requires
            !old(self).finished,
        ensures
            *final(self) == after_counted_silence(*cfg, *old(self), pre),
    {
        let run = bump_exec(self.silence_run);
        if run >= cfg.silence_threshold {
            if self.phase != Phase::AwaitingSpeech {
                self.end_confirmations = bump_exec(self.end_confirmations);
                if self.end_confirmations >= cfg.end_confirmation_threshold {
                    self.finished = true;
                }
            }
            self.phase = Phase::AwaitingSpeech;
        } else if run >= cfg.silence_debounce_threshold && self.phase == Phase::Listening {
            self.phase = Phase::PossiblyEnding;
        }
        self.silence_run = run;
        self.pre_activation_silence_run = pre;
    }

    /// Takes one classification into account and reports the decision.
    pub fn step(&mut self, cfg: &EndpointConfig, c: Classification) -> (r: Decision)
        ensures
            *final(self) == next_state(*cfg, *old(self), c),
            r == decision_of(*final(self)),
    {
        if !self.finished {
            match c {
                Classification::Voice => {
                    self.silence_run = 0;
                    self.pre_activation_silence_run = 0;
                    self.phase = Phase::Listening;
                },
                Classification::Invalid => {},
                Classification::Silence => {
                    if self.phase == Phase::AwaitingSpeech {
                        let pre = bump_exec(self.pre_activation_silence_run);
                        if pre < cfg.initial_silence_threshold {
                            self.pre_activation_silence_run = pre;
                        } else {
                            self.counted_silence(cfg, pre);
                        }
                    } else {
                        let pre = self.pre_activation_silence_run;
                        self.counted_silence(cfg, pre);
                    }
                },
            }
        }
        self.decision()
    }
}

/// The position of the frame at which a fresh session fed `cs` finishes, if it does.
pub fn finishing_frame(cfg: &EndpointConfig, cs: &[Classification]) -> (r: Option<usize>)
    ensures
        match r {
            Some(i) => i < cs@.len() && !run(*cfg, cs@.take(i as int)).finished && run(
                *cfg,
                cs@.take(i + 1),
            ).finished,
            None => !run(*cfg, cs@).finished,
        },
{
    let mut s = SessionState::new();
    let mut i: usize = 0;
    while i < cs.len()
        invariant
            i <= cs@.len(),
            s == run(*cfg, cs@.take(i as int)),
            !s.finished,
        decreases cs@.len() - i,
    {
        assert(cs@.take(i + 1).drop_last() =~= cs@.take(i as int));
        let d = s.step(cfg, cs[i]);
        if d == Decision::SessionFinished {
            return Some(i);
        }
        i = i + 1;
    }
    assert(cs@.take(i as int) =~= cs@);
    None
}

} // verus!
