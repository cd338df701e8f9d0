use impulse_voice::audio::{
    device_display_name, device_not_found_message, list_input_devices, max_capture_samples,
    resample_needs_flush, resample_plan, resample_window, select_input_device, AudioError,
    AudioRecorder, CaptureBuffer, ResamplePlan, TARGET_SAMPLE_RATE,
};

#[test]
fn passthrough_at_target_rate() {
    assert_eq!(resample_plan(3, TARGET_SAMPLE_RATE), ResamplePlan::Passthrough);
}

#[test]
fn resampling_has_expected_length() {
    assert_eq!(resample_plan(48_000, 48_000), ResamplePlan::Resample { expected_len: 16_000 });
}

#[test]
fn resampling_window_and_flush() {
    assert_eq!(resample_plan(44_101, 44_100), ResamplePlan::Resample { expected_len: 16_000 });
    assert!(resample_needs_flush(100, 90, 20));
    assert!(!resample_needs_flush(110, 90, 20));
    assert_eq!(resample_window(20, 130, 90), (20, 110));
    assert_eq!(resample_window(20, 60, 90), (20, 60));
    assert_eq!(resample_window(200, 60, 90), (60, 60));
}

#[test]
fn devices_are_listed_with_the_default_marked() {
    let names = vec!["USB".to_string(), "Built-in".to_string()];
    let listed = list_input_devices(names, Some("Built-in".to_string()));
    assert_eq!(listed.len(), 2);
    assert_eq!(listed[0].name, "USB");
    assert!(!listed[0].is_default);
    assert!(listed[1].is_default);
    let none = list_input_devices(vec!["USB".to_string()], None);
    assert!(!none[0].is_default);
}

#[test]
fn configured_device_is_found_by_exact_name() {
    let names = vec![None, Some("USB".to_string()), Some("USB".to_string())];
    assert_eq!(select_input_device(&names, "USB"), Some(1));
    assert_eq!(select_input_device(&names, "usb"), None);
    assert_eq!(device_not_found_message("usb"), "configured input device not found: usb");
    assert_eq!(device_display_name(None), "Microphone");
    assert_eq!(device_display_name(Some("USB".to_string())), "USB");
}

#[test]
fn capture_is_bounded_to_five_minutes() {
    assert_eq!(max_capture_samples(48_000), 14_400_000);
    let mut buffer: CaptureBuffer<i32> = CaptureBuffer::new(5, 2);
    assert!(buffer.push_frames(vec![1, 2, 3]));
    assert!(buffer.push_frames(vec![4, 5]));
    assert!(!buffer.push_frames(vec![6]));
    assert!(buffer.is_overflowed());
    assert_eq!(buffer.len(), 5);
    assert!(!buffer.push_frames(vec![]));
    assert_eq!(buffer.take_samples(), Err(AudioError::TooLong));
    assert_eq!(AudioError::TooLong.message(), "the recording exceeds the five-minute limit");
}

#[test]
fn captured_samples_are_taken_once() {
    let mut buffer: CaptureBuffer<i32> = CaptureBuffer::new(10, 0);
    assert_eq!(buffer.take_samples(), Err(AudioError::NoSamples));
    buffer.push_frames(vec![7, 8]);
    assert_eq!(buffer.take_samples(), Ok(vec![7, 8]));
    assert_eq!(buffer.take_samples(), Err(AudioError::NoSamples));
}

#[test]
fn one_recording_at_a_time() {
    let mut recorder: AudioRecorder<u8> = AudioRecorder::new(Some("USB".to_string()));
    assert_eq!(recorder.preferred_device().as_deref(), Some("USB"));
    assert!(recorder.check_can_start().is_ok());
    assert!(recorder.activate(1).is_ok());
    assert_eq!(recorder.check_can_start(), Err(AudioError::AlreadyRecording));
    assert_eq!(recorder.activate(2), Err(2));
    assert_eq!(recorder.deactivate(), Ok(1));
    assert_eq!(recorder.deactivate(), Err(AudioError::NotRecording));
    recorder.activate(3).unwrap();
    recorder.cancel();
    assert!(!recorder.is_recording());
    assert_eq!(AudioError::NotRecording.message(), "no recording is in progress");
}
