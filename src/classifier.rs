//! The voice/silence classifier: a WebRTC voice activity detector behind a
//! type of this library.
use vstd::prelude::*;
use webrtc_vad::{Vad, VadMode};
use crate::endpoint::Classification;

verus! {

#[verifier::external_type_specification]
#[verifier::external_body]
pub struct ExVad(Vad);

/// How readily the detector reports voice, from most to least permissive.
#[derive(PartialEq, Eq, Structural, Clone, Copy, Debug)]
pub enum Aggressiveness {
    Quality,
    LowBitrate,
    Aggressive,
    VeryAggressive,
}

/// The mode that a name selects; an unknown name selects the most aggressive mode.
pub open spec fn aggressiveness_named(name: Seq<char>) -> Aggressiveness {
    if name == "Quality"@ {
        Aggressiveness::Quality
    } else if name == "LowBitrate"@ {
        Aggressiveness::LowBitrate
    } else if name == "Aggressive"@ {
        Aggressiveness::Aggressive
    } else {
        Aggressiveness::VeryAggressive
    }
}

impl Aggressiveness {
    /// The mode named `name` (`Quality`, `LowBitrate`, `Aggressive` or
    /// `VeryAggressive`); any other name gives `VeryAggressive`.
    pub fn from_name(name: &str) -> (r: Aggressiveness)
        ensures
            r == aggressiveness_named(name@),
    {
        let name = name.to_owned();
        if name == "Quality".to_owned() {
            Aggressiveness::Quality
        } else if name == "LowBitrate".to_owned() {
            Aggressiveness::LowBitrate
        } else if name == "Aggressive".to_owned() {
            Aggressiveness::Aggressive
        } else {
            Aggressiveness::VeryAggressive
        }
    }
}

/// The frame lengths, in samples, that the detector judges at 8 kHz:
/// 10, 20 or 30 ms of audio.
pub open spec fn supported_frame_length(n: nat) -> bool {
    n == 80 || n == 160 || n == 240
}

/// Relies on webrtc_vad::Vad::new_with_mode: a fresh detector in the given mode,
/// at its default sample rate of 8 kHz.
#[verifier::external_body]
fn detector_with_mode(mode: Aggressiveness) -> (r: Vad) {
    Vad::new_with_mode(
        match mode {
            Aggressiveness::Quality => VadMode::Quality,
            Aggressiveness::LowBitrate => VadMode::LowBitrate,
            Aggressiveness::Aggressive => VadMode::Aggressive,
            Aggressiveness::VeryAggressive => VadMode::VeryAggressive,
        },
    )
}

impl Classification {
    /// Reads what the detector reported: voice, no voice, or a frame it could not judge.
    pub fn from_detection(detected: Result<bool, ()>) -> (r: Classification)
        ensures
            r == (match detected {
                Ok(true) => Classification::Voice,
                Ok(false) => Classification::Silence,
                Err(_) => Classification::Invalid,
            }),
    {
        match detected {
            Ok(true) => Classification::Voice,
            Ok(false) => Classification::Silence,
            Err(_) => Classification::Invalid,
        }
    }
}

/// A voice activity detector. It is only ever made by `new`, so it always
/// runs at 8 kHz. It keeps a history of the frames it has seen, so what it
/// reports for a frame depends on the frames before it.
pub struct Classifier {
    detector: Vad,
}

impl Classifier {
    /// A detector in the given mode.
    pub fn new(mode: Aggressiveness) -> (r: Classifier) {
        Classifier { detector: detector_with_mode(mode) }
    }

    /// Relies on webrtc_vad::Vad::is_voice_segment: on a detector at 8 kHz it
    /// fails exactly when the frame length is not 80, 160 or 240 samples
    /// (libfvad's `valid_length`); it indexes the first sample, so the frame
    /// must not be empty.
    #[verifier::external_body]
    fn detected(&mut self, frame: &[i16]) -> (r: Result<bool, ()>)
        requires
            frame@.len() > 0,
        ensures
            r.is_err() <==> !supported_frame_length(frame@.len()),
    {
        self.detector.is_voice_segment(frame)
    }

    /// Classifies one frame. A frame of unsupported length is `Invalid`; on the
    /// others the detector decides between voice and silence.
    pub fn classify(&mut self, frame: &[i16]) -> (r: Classification)
        ensures
            r == Classification::Invalid <==> !supported_frame_length(frame@.len()),
    {
        if frame.len() == 0 {
            return Classification::Invalid;
        }
        let detected = self.detected(frame);
        Classification::from_detection(detected)
    }
}

} // verus!
