use ncm_decoder::coordinator::{Action, CoordError, Coordinator, Event, Phase};
use ncm_decoder::errors::TranscoderError;
use ncm_decoder::sniff::AudioKind;

#[test]
fn flac_payload_is_persisted_directly() {
    let c = Coordinator::new();
    let (c, a) = c.step(Event::Classified(AudioKind::Flac));
    assert_eq!(a, Action::Persist);
    let (c, a) = c.step(Event::Persisted(true));
    assert_eq!(a, Action::Halt);
    assert_eq!(c.phase, Phase::Done);
    assert!(!c.temp_on_disk);
}

#[test]
fn other_payload_is_transcoded_and_temp_removed() {
    let c = Coordinator::new();
    let (c, a) = c.step(Event::Classified(AudioKind::Other));
    assert_eq!(a, Action::WriteTemp);
    let (c, a) = c.step(Event::TempWritten(true));
    assert_eq!(a, Action::Invoke);
    assert!(c.temp_on_disk);
    let (c, a) = c.step(Event::TranscoderExited { success: true, stderr: String::new() });
    assert_eq!(a, Action::RemoveTemp);
    let (c, a) = c.step(Event::TempRemoved);
    assert_eq!(a, Action::Halt);
    assert_eq!(c.phase, Phase::Done);
    assert!(!c.temp_on_disk);
}

#[test]
fn failing_transcoder_reports_stderr_and_leaves_no_temp() {
    // A mock transcoder collaborator that always exits non-zero: the pipeline
    // must report NonZeroExit with the captured stderr and remove the
    // temporary file before finishing.
    let c = Coordinator::new();
    let (c, a) = c.step(Event::Classified(AudioKind::Other));
    assert_eq!(a, Action::WriteTemp);
    let (c, a) = c.step(Event::TempWritten(true));
    assert_eq!(a, Action::Invoke);
    let (c, a) = c.step(Event::TranscoderExited {
        success: false,
        stderr: String::from("mock transcoder: boom"),
    });
    assert_eq!(a, Action::RemoveTemp);
    assert!(c.temp_on_disk);
    let (c, a) = c.step(Event::TempRemoved);
    assert_eq!(a, Action::Halt);
    assert_eq!(
        c.phase,
        Phase::Failed(CoordError::Transcoder(TranscoderError::NonZeroExit(String::from(
            "mock transcoder: boom"
        ))))
    );
    assert!(!c.temp_on_disk);
}

#[test]
fn missing_transcoder_reports_not_found_and_leaves_no_temp() {
    let c = Coordinator::new();
    let (c, _) = c.step(Event::Classified(AudioKind::Other));
    let (c, _) = c.step(Event::TempWritten(true));
    let (c, a) = c.step(Event::TranscoderMissing);
    assert_eq!(a, Action::RemoveTemp);
    let (c, a) = c.step(Event::TempRemoved);
    assert_eq!(a, Action::Halt);
    assert_eq!(
        c.phase,
        Phase::Failed(CoordError::Transcoder(TranscoderError::NotFound))
    );
    assert!(!c.temp_on_disk);
}

#[test]
fn failed_writes_fail_the_request() {
    let c = Coordinator::new();
    let (c, _) = c.step(Event::Classified(AudioKind::Flac));
    let (c, a) = c.step(Event::Persisted(false));
    assert_eq!(a, Action::Halt);
    assert_eq!(c.phase, Phase::Failed(CoordError::Io));
    assert!(!c.temp_on_disk);

    let c = Coordinator::new();
    let (c, _) = c.step(Event::Classified(AudioKind::Other));
    let (c, a) = c.step(Event::TempWritten(false));
    assert_eq!(a, Action::Halt);
    assert_eq!(c.phase, Phase::Failed(CoordError::Io));
    assert!(!c.temp_on_disk);
}

#[test]
fn mismatched_event_changes_nothing() {
    let c = Coordinator::new();
    let (c, a) = c.step(Event::TempRemoved);
    assert_eq!(a, Action::Halt);
    assert_eq!(c.phase, Phase::Start);
    assert!(!c.temp_on_disk);
}
