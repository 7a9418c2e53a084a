use escucha::audio::{arecord_args, capture_path_in, stop_outcome};

#[test]
fn stop_with_existing_file_yields_its_path() {
    let r = stop_outcome(true, "/tmp/rec.wav".to_string());
    assert_eq!(r.unwrap(), "/tmp/rec.wav");
}

#[test]
fn stop_with_missing_file_fails_explicitly() {
    let r = stop_outcome(false, "/tmp/rec.wav".to_string());
    let err = r.unwrap_err();
    assert_eq!(err.message(), "Recording file not found: /tmp/rec.wav");
}

#[test]
fn arecord_invocation_is_sixteen_khz_mono_pcm() {
    let args = arecord_args("/tmp/rec.wav");
    assert_eq!(
        args,
        vec!["-f", "S16_LE", "-r", "16000", "-c", "1", "-t", "wav", "/tmp/rec.wav"]
    );
}

#[test]
fn capture_path_is_inside_the_given_directory() {
    assert_eq!(
        capture_path_in("/tmp/escucha123"),
        "/tmp/escucha123/escucha_recording.wav"
    );
}
