use asreadln::buffer::SessionBuffer;
use asreadln::classifier::{Aggressiveness, Classifier};
use asreadln::endpoint::{Classification, Decision, EndpointConfig, Phase};
use asreadln::session::CaptureSession;

#[test]
fn buffer_keeps_every_sample_in_order() {
    let mut b = SessionBuffer::new();
    assert_eq!(b.len(), 0);
    b.ingest(&[1, -2, 3]);
    b.ingest(&[]);
    b.ingest(&[i16::MAX, i16::MIN]);
    assert_eq!(b.len(), 5);
    assert_eq!(b.samples(), &[1, -2, 3, i16::MAX, i16::MIN]);
}

#[test]
fn buffer_length_is_frames_times_frame_size() {
    let cfg = EndpointConfig::defaults();
    let mut session = CaptureSession::new(cfg);
    let kinds = [Classification::Voice, Classification::Silence, Classification::Invalid];
    for n in 0..30usize {
        let frame = vec![n as i16; 160];
        session.accept(&frame, kinds[n % 3]);
    }
    assert_eq!(session.buffer.len(), 30 * 160);
    assert_eq!(session.buffer.samples()[160 * 7], 7);
}

#[test]
fn names_select_modes() {
    assert_eq!(Aggressiveness::from_name("Quality"), Aggressiveness::Quality);
    assert_eq!(Aggressiveness::from_name("LowBitrate"), Aggressiveness::LowBitrate);
    assert_eq!(Aggressiveness::from_name("Aggressive"), Aggressiveness::Aggressive);
    assert_eq!(Aggressiveness::from_name("VeryAggressive"), Aggressiveness::VeryAggressive);
    assert_eq!(Aggressiveness::from_name("quality"), Aggressiveness::VeryAggressive);
    assert_eq!(Aggressiveness::from_name(""), Aggressiveness::VeryAggressive);
}

#[test]
fn detections_become_classifications() {
    assert_eq!(Classification::from_detection(Ok(true)), Classification::Voice);
    assert_eq!(Classification::from_detection(Ok(false)), Classification::Silence);
    assert_eq!(Classification::from_detection(Err(())), Classification::Invalid);
}

#[test]
fn detector_rejects_unsupported_lengths() {
    let mut c = Classifier::new(Aggressiveness::VeryAggressive);
    assert_eq!(c.classify(&[]), Classification::Invalid);
    assert_eq!(c.classify(&vec![0i16; 100]), Classification::Invalid);
    assert_eq!(c.classify(&vec![0i16; 320]), Classification::Invalid);
}

#[test]
fn detector_hears_silence_in_zeros() {
    let mut c = Classifier::new(Aggressiveness::Quality);
    for len in [80usize, 160, 240] {
        assert_eq!(c.classify(&vec![0i16; len]), Classification::Silence);
    }
}

#[test]
fn invalid_frames_are_still_stored() {
    let mut c = Classifier::new(Aggressiveness::VeryAggressive);
    let mut session = CaptureSession::new(EndpointConfig::defaults());
    let (k, d) = session.process_frame(&mut c, &vec![5i16; 123]);
    assert_eq!(k, Classification::Invalid);
    assert_eq!(d, Decision::ContinueWaiting);
    assert_eq!(session.buffer.len(), 123);
    let (k, _) = session.process_frame(&mut c, &vec![0i16; 160]);
    assert_eq!(k, Classification::Silence);
    assert_eq!(session.buffer.len(), 283);
    assert_eq!(session.state.pre_activation_silence_run, 1);
    assert_eq!(session.state.phase, Phase::AwaitingSpeech);
    assert!(!session.is_finished());
}

#[test]
fn session_finishes_after_two_bursts() {
    let cfg = EndpointConfig::defaults();
    let mut session = CaptureSession::new(cfg);
    let frame = [0i16; 160];
    let mut finished_at = None;
    let mut script = Vec::new();
    for (c, n) in [
        (Classification::Silence, 50),
        (Classification::Voice, 10),
        (Classification::Silence, 70),
        (Classification::Voice, 10),
        (Classification::Silence, 70),
    ] {
        for _ in 0..n {
            script.push(c);
        }
    }
    for (i, c) in script.iter().enumerate() {
        if session.accept(&frame, *c) == Decision::SessionFinished {
            finished_at = Some(i + 1);
            break;
        }
    }
    assert_eq!(finished_at, Some(210));
    assert_eq!(session.buffer.len(), 210 * 160);
}
