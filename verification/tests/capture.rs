use teleprompter::buffer::{FragmentBuffer, MergeFailure};
use teleprompter::capture::{CaptureRecorder, RecorderCommand, RecordingStatus};

fn live_recorder() -> CaptureRecorder {
    let mut recorder = CaptureRecorder::new();
    recorder.attach_stream();
    recorder
}

#[test]
fn status_labels() {
    assert_eq!(RecordingStatus::Idle.label(), "Idle");
    assert_eq!(RecordingStatus::Recording.label(), "Recording");
    assert_eq!(RecordingStatus::Paused.label(), "Paused");
}

#[test]
fn fresh_recorder_is_idle_and_empty() {
    let recorder = CaptureRecorder::new();
    assert_eq!(recorder.status(), RecordingStatus::Idle);
    assert!(!recorder.has_stream());
    assert_eq!(recorder.fragment_count(), 0);
}

#[test]
fn start_without_stream_does_nothing() {
    let mut recorder = CaptureRecorder::new();
    assert_eq!(recorder.start(), RecorderCommand::Nothing);
    assert_eq!(recorder.status(), RecordingStatus::Idle);
}

#[test]
fn valid_transitions() {
    let mut recorder = live_recorder();
    assert_eq!(recorder.start(), RecorderCommand::Start);
    assert_eq!(recorder.status(), RecordingStatus::Recording);
    assert_eq!(recorder.pause(), RecorderCommand::Pause);
    assert_eq!(recorder.status(), RecordingStatus::Paused);
    assert_eq!(recorder.resume(), RecorderCommand::Resume);
    assert_eq!(recorder.status(), RecordingStatus::Recording);
    assert_eq!(recorder.stop(), RecorderCommand::Stop);
    assert_eq!(recorder.status(), RecordingStatus::Recording);
    assert!(recorder.on_stopped());
    assert_eq!(recorder.status(), RecordingStatus::Idle);
}

#[test]
fn invalid_transitions_change_nothing() {
    let mut recorder = live_recorder();
    assert_eq!(recorder.pause(), RecorderCommand::Nothing);
    assert_eq!(recorder.resume(), RecorderCommand::Nothing);
    assert_eq!(recorder.stop(), RecorderCommand::Nothing);
    assert_eq!(recorder.status(), RecordingStatus::Idle);
    assert!(!recorder.on_stopped());
    recorder.start();
    assert_eq!(recorder.start(), RecorderCommand::Nothing);
    assert_eq!(recorder.resume(), RecorderCommand::Nothing);
    assert_eq!(recorder.status(), RecordingStatus::Recording);
    recorder.pause();
    assert_eq!(recorder.pause(), RecorderCommand::Nothing);
    assert_eq!(recorder.start(), RecorderCommand::Nothing);
    assert_eq!(recorder.status(), RecordingStatus::Paused);
    assert_eq!(recorder.stop(), RecorderCommand::Stop);
}

#[test]
fn idle_recorder_keeps_no_fragment() {
    let mut recorder = live_recorder();
    assert!(!recorder.on_data_available(vec![1, 2, 3]));
    assert_eq!(recorder.fragment_count(), 0);
    recorder.start();
    assert!(recorder.on_data_available(vec![4]));
    recorder.on_stopped();
    assert!(!recorder.on_data_available(vec![5, 6]));
    assert_eq!(recorder.fragment_count(), 1);
    assert_eq!(recorder.merge().unwrap().data(), &vec![4u8]);
}

#[test]
fn fragments_stay_in_emission_order() {
    let mut recorder = live_recorder();
    recorder.start();
    assert!(recorder.on_data_available(vec![1, 2]));
    recorder.pause();
    assert!(recorder.on_data_available(vec![3]));
    recorder.resume();
    assert!(recorder.on_data_available(vec![]));
    recorder.stop();
    assert!(recorder.on_data_available(vec![4, 5, 6]));
    recorder.on_stopped();
    let artifact = recorder.merge().unwrap();
    assert_eq!(artifact.data(), &vec![1u8, 2, 3, 4, 5, 6]);
    assert_eq!(artifact.fragment_count(), 4);
    assert_eq!(artifact.size(), 6);
}

#[test]
fn three_fragments_merge_to_forty_five_bytes() {
    let mut recorder = live_recorder();
    assert_eq!(recorder.start(), RecorderCommand::Start);
    let first: Vec<u8> = (0..10).collect();
    let second: Vec<u8> = (100..120).collect();
    let third: Vec<u8> = (200..215).collect();
    recorder.on_data_available(first.clone());
    recorder.on_data_available(second.clone());
    recorder.on_data_available(third.clone());
    assert_eq!(recorder.stop(), RecorderCommand::Stop);
    assert!(recorder.on_stopped());
    let artifact = recorder.merge().unwrap();
    assert_eq!(artifact.size(), 45);
    let mut expected = first;
    expected.extend(second);
    expected.extend(third);
    assert_eq!(artifact.data(), &expected);
}

#[test]
fn merge_of_nothing_fails() {
    let buffer = FragmentBuffer::new();
    assert!(buffer.is_empty());
    assert_eq!(buffer.merge_all().unwrap_err(), MergeFailure::NoFragments);
    assert_eq!(MergeFailure::NoFragments.message(), "no recording available");
    let recorder = live_recorder();
    assert!(matches!(recorder.merge(), Err(MergeFailure::NoFragments)));
}

#[test]
fn merge_of_one_empty_fragment_succeeds() {
    let mut buffer = FragmentBuffer::new();
    buffer.append(Vec::new());
    let artifact = buffer.merge_all().unwrap();
    assert_eq!(artifact.size(), 0);
    assert_eq!(artifact.fragment_count(), 1);
}

#[test]
fn merge_twice_gives_equal_artifacts() {
    let mut buffer = FragmentBuffer::new();
    buffer.append(vec![9, 8]);
    buffer.append(vec![7]);
    assert_eq!(buffer.len(), 2);
    let first = buffer.merge_all().unwrap();
    let second = buffer.merge_all().unwrap();
    assert_eq!(first.data(), second.data());
    assert_eq!(first.data(), &vec![9u8, 8, 7]);
    assert_eq!(buffer.len(), 2);
    assert_eq!(second.fragment_count(), 2);
}
