use airtype_lib::audio::{
    capture_state, check_can_start, check_can_stop, AudioBuffer, AudioError, CaptureConfig,
    CaptureState, DEFAULT_CHUNK_SIZE, TARGET_SAMPLE_RATE,
};

#[test]
fn test_push_and_get_samples() {
    let mut buffer = AudioBuffer::new();
    let samples = vec![0.1f32, 0.2, 0.3, 0.4, 0.5];

    buffer.push_samples(&samples);

    assert_eq!(buffer.len(), 5);
    assert_eq!(buffer.get_samples(), samples);
}

#[test]
fn test_take_samples_clears_buffer() {
    let mut buffer = AudioBuffer::new();
    buffer.push_samples(&[0.1f32, 0.2, 0.3]);

    let taken = buffer.take_samples();

    assert_eq!(taken, vec![0.1, 0.2, 0.3]);
    assert!(buffer.is_empty());
}

#[test]
fn test_take_chunk() {
    let mut buffer = AudioBuffer::with_chunk_size(3);
    buffer.push_samples(&[0.1f32, 0.2, 0.3, 0.4, 0.5]);

    let chunk = buffer.take_chunk();

    assert_eq!(chunk, Some(vec![0.1, 0.2, 0.3]));
    assert_eq!(buffer.len(), 2);
}

#[test]
fn test_take_chunk_not_enough_samples() {
    let mut buffer = AudioBuffer::with_chunk_size(10);
    buffer.push_samples(&[0.1f32, 0.2, 0.3]);

    assert!(buffer.take_chunk().is_none());
    assert_eq!(buffer.len(), 3);
}

#[test]
fn chunk_then_flush_gives_everything_in_order() {
    let mut buffer = AudioBuffer::with_chunk_size(2);
    buffer.push_samples(&[1i16, 2, 3]);
    buffer.push_samples(&[4i16, 5]);
    assert!(buffer.has_chunk());
    assert_eq!(buffer.take_chunk(), Some(vec![1, 2]));
    assert_eq!(buffer.take_chunk(), Some(vec![3, 4]));
    assert!(!buffer.has_chunk());
    assert_eq!(buffer.take_chunk(), None);
    assert_eq!(buffer.flush(), vec![5]);
    assert!(buffer.is_empty());
}

#[test]
fn default_buffer_uses_half_second_chunks() {
    assert_eq!(TARGET_SAMPLE_RATE, 16000);
    assert_eq!(DEFAULT_CHUNK_SIZE, 8000);
    let mut buffer: AudioBuffer<i16> = AudioBuffer::new();
    buffer.push_samples(&vec![0i16; 7999]);
    assert!(!buffer.has_chunk());
    buffer.push_samples(&[0i16]);
    assert!(buffer.has_chunk());
    buffer.set_chunk_size(9000);
    assert!(!buffer.has_chunk());
    buffer.clear();
    assert_eq!(buffer.len(), 0);
    assert_eq!(CaptureConfig::default().chunk_size, DEFAULT_CHUNK_SIZE);
}

#[test]
fn capture_start_and_stop_are_checked_against_state() {
    assert_eq!(capture_state(true), CaptureState::Recording);
    assert_eq!(capture_state(false), CaptureState::Idle);
    assert!(check_can_start(false).is_ok());
    assert!(matches!(check_can_start(true), Err(AudioError::AlreadyRecording)));
    assert!(check_can_stop(true).is_ok());
    assert!(matches!(check_can_stop(false), Err(AudioError::NotRecording)));
}

#[test]
fn audio_error_messages() {
    assert_eq!(AudioError::AlreadyRecording.message(), "Recording is already active");
    assert_eq!(AudioError::NotRecording.message(), "Recording is not active");
    assert_eq!(AudioError::NoInputDevice.message(), "No audio input device found");
    assert_eq!(
        AudioError::StreamBuildError("busy".to_string()).message(),
        "Failed to build audio stream: busy"
    );
}
