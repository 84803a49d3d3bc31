//! One capture session: each frame is accumulated, classified, and fed to the
//! endpointing state machine, in that order.
use vstd::prelude::*;
use crate::buffer::SessionBuffer;
use crate::classifier::{Classifier, supported_frame_length};
use crate::endpoint::{
    Classification, Decision, EndpointConfig, SessionState, decision_of, initial_state,
    next_state,
};

verus! {

pub struct CaptureSession {
    pub config: EndpointConfig,
    pub state: SessionState,
    pub buffer: SessionBuffer,
}

impl CaptureSession {
    /// A session with nothing heard and nothing stored.
    pub fn new(config: EndpointConfig) -> (r: CaptureSession)
        ensures
            r.config == config,
            r.state == initial_state(),
            r.buffer@ == Seq::<i16>::empty(),
    {
        CaptureSession { config, state: SessionState::new(), buffer: SessionBuffer::new() }
    }

    /// Stores `frame` whatever its classification, then lets `c` drive the state.
    pub fn accept(&mut self, frame: &[i16], c: Classification) -> (r: Decision)
        ensures
            final(self).config == old(self).config,
            final(self).buffer@ == old(self).buffer@ + frame@,
            final(self).state == next_state(old(self).config, old(self).state, c),
            r == decision_of(final(self).state),
    {
        self.buffer.ingest(frame);
        let cfg = self.config;
        self.state.step(&cfg, c)
    }

    /// Stores `frame`, has `classifier` judge it, and steps the state machine
    /// with the result. Returns the classification and the decision; the
    /// detector alone decides between voice and silence on a supported length.
    pub fn process_frame(&mut self, classifier: &mut Classifier, frame: &[i16]) -> (r: (
        Classification,
        Decision,
    ))
        ensures
            r.0 == Classification::Invalid <==> !supported_frame_length(frame@.len()),
            final(self).config == old(self).config,
            final(self).buffer@ == old(self).buffer@ + frame@,
            final(self).state == next_state(old(self).config, old(self).state, r.0),
            r.1 == decision_of(final(self).state),
    {
        self.buffer.ingest(frame);
        let c = classifier.classify(frame);
        let cfg = self.config;
        let d = self.state.step(&cfg, c);
        (c, d)
    }

    /// Whether the terminal decision has been reached.
    pub fn is_finished(&self) -> (r: bool)
        ensures
            r == self.state.finished,
    {
        self.state.finished
    }
}

} // verus!
