use media_relay::session::{step, Action, Event, Phase};

fn text_event(s: &str) -> Event {
    Event::Text { content: s.to_string() }
}

const REQUEST_A: &str =
    "{\"file_name\":\"clip.mp4\",\"video_data\":\"data:video/mp4;base64,AAAA\"}";

const SUCCESS_STATUS: &str = "{\"status\":\"success\",\"message\":\"Converting video to HEVC\"}";

const DECODE_ERROR_STATUS: &str =
    "{\"status\":\"error\",\"message\":\"Failed to decode video data.\"}";

/// Drives one full successful request cycle from `Awaiting` back to
/// `Awaiting`, checking every phase and action on the way.
fn run_successful_cycle(name: &str, payload_bytes: Vec<u8>, delivered: Vec<u8>) {
    let request = format!(
        "{{\"file_name\":\"{}\",\"video_data\":\"data:video/mp4;base64,{}\"}}",
        name,
        base64::encode(&payload_bytes)
    );
    let intake = format!("./uploads/{}", name);

    let (p, a) = step(Phase::Awaiting, text_event(&request));
    match (&p, &a) {
        (Phase::Persisting { file_name }, Action::WriteFile { path, bytes }) => {
            assert_eq!(file_name, name);
            assert_eq!(path, &intake);
            assert_eq!(bytes, &payload_bytes);
        }
        _ => panic!("expected a write to the intake path"),
    }

    let (p, a) = step(p, Event::ActionOk);
    match (&p, &a) {
        (Phase::Notifying { .. }, Action::SendText { text }) => {
            assert_eq!(text, SUCCESS_STATUS);
        }
        _ => panic!("expected the progress notification"),
    }

    let (p, a) = step(p, Event::ActionOk);
    match (&p, &a) {
        (Phase::Transcoding { .. }, Action::RunTranscode { program, args }) => {
            assert_eq!(program, "ffmpeg");
            assert_eq!(args[0], "-i");
            assert_eq!(args[1], intake);
            assert_eq!(args[10], "./transform_data/output.mp4");
        }
        _ => panic!("expected the transcode to start"),
    }

    let (p, a) = step(
        p,
        Event::TranscodeDone { spawned: true, exit_zero: true, diagnostic: String::new() },
    );
    match (&p, &a) {
        (Phase::Reading { .. }, Action::ReadFile { path }) => {
            assert_eq!(path, "./transform_data/output.mp4");
        }
        _ => panic!("expected the output file to be read back"),
    }

    let (p, a) = step(p, Event::BytesRead { bytes: delivered.clone() });
    match (&p, &a) {
        (Phase::Delivering { .. }, Action::SendBinary { bytes }) => {
            assert_eq!(bytes, &delivered);
        }
        _ => panic!("expected the binary delivery"),
    }

    let (p, a) = step(p, Event::ActionOk);
    match (&p, &a) {
        (Phase::CleanupIntake { .. }, Action::DeleteFile { path }) => {
            assert_eq!(path, &intake);
        }
        _ => panic!("expected the intake file's deletion"),
    }

    let (p, a) = step(p, Event::ActionOk);
    match (&p, &a) {
        (Phase::CleanupOutput, Action::DeleteFile { path }) => {
            assert_eq!(path, "./transform_data/output.mp4");
        }
        _ => panic!("expected the output file's deletion"),
    }

    let (p, a) = step(p, Event::ActionOk);
    assert!(matches!(p, Phase::Awaiting));
    assert!(matches!(a, Action::Wait));
}

#[test]
fn scenario_a_full_successful_cycle() {
    // "AAAA" is the base64 encoding of three zero bytes.
    run_successful_cycle("clip.mp4", vec![0u8, 0, 0], vec![9u8, 8, 7]);
}

#[test]
fn scenario_a_exact_request_text() {
    let (p, a) = step(Phase::Awaiting, text_event(REQUEST_A));
    match (&p, &a) {
        (Phase::Persisting { file_name }, Action::WriteFile { path, bytes }) => {
            assert_eq!(file_name, "clip.mp4");
            assert_eq!(path, "./uploads/clip.mp4");
            assert_eq!(bytes, &vec![0u8, 0, 0]);
        }
        _ => panic!("expected a write to ./uploads/clip.mp4"),
    }
}

#[test]
fn scenario_b_undecodable_payload_sends_error_and_writes_nothing() {
    let request = "{\"file_name\":\"clip.mp4\",\"video_data\":\"not-base64!!\"}";
    let (p, a) = step(Phase::Awaiting, text_event(request));
    match (&p, &a) {
        (Phase::Reporting, Action::SendText { text }) => {
            assert_eq!(text, DECODE_ERROR_STATUS);
        }
        _ => panic!("expected the decode-failure status and no write"),
    }
    let (p, a) = step(p, Event::ActionOk);
    assert!(matches!(p, Phase::Awaiting));
    assert!(matches!(a, Action::Wait));
}

#[test]
fn scenario_c_back_to_back_requests_run_to_completion_in_order() {
    run_successful_cycle("first.mp4", b"one".to_vec(), b"ONE".to_vec());
    run_successful_cycle("second.mp4", b"two".to_vec(), b"TWO".to_vec());
}

#[test]
fn scenario_d_raw_binary_frame_goes_to_the_fallback_path() {
    let payload = vec![1u8, 2, 3, 4];
    let (p, a) = step(Phase::Awaiting, Event::Binary { bytes: payload.clone() });
    match (&p, &a) {
        (Phase::StoringRaw, Action::WriteFile { path, bytes }) => {
            assert_eq!(path, "./uploads/upload.bin");
            assert_eq!(bytes, &payload);
        }
        _ => panic!("expected a verbatim write to the fallback path"),
    }
    let (p, a) = step(p, Event::ActionOk);
    assert!(matches!(p, Phase::Awaiting));
    assert!(matches!(a, Action::Wait));
}

#[test]
fn transcode_failure_cleans_up_and_keeps_the_session_open() {
    let (p, _) = step(Phase::Awaiting, text_event(REQUEST_A));
    let (p, _) = step(p, Event::ActionOk);
    let (p, _) = step(p, Event::ActionOk);
    assert!(matches!(p, Phase::Transcoding { .. }));

    let (p, a) = step(
        p,
        Event::TranscodeDone {
            spawned: true,
            exit_zero: false,
            diagnostic: "boom".to_string(),
        },
    );
    match (&p, &a) {
        (Phase::CleanupIntake { .. }, Action::DeleteFile { path }) => {
            assert_eq!(path, "./uploads/clip.mp4");
        }
        _ => panic!("expected the intake cleanup after a failed transcode"),
    }
    let (p, _) = step(p, Event::ActionOk);
    let (p, a) = step(p, Event::ActionOk);
    assert!(matches!(p, Phase::Awaiting));
    assert!(matches!(a, Action::Wait));

    // The session still processes a subsequent request.
    let (p, _) = step(p, text_event(REQUEST_A));
    assert!(matches!(p, Phase::Persisting { .. }));
}

#[test]
fn spawn_failure_also_cleans_up() {
    let (p, _) = step(Phase::Awaiting, text_event(REQUEST_A));
    let (p, _) = step(p, Event::ActionOk);
    let (p, _) = step(p, Event::ActionOk);
    let (p, a) = step(
        p,
        Event::TranscodeDone {
            spawned: false,
            exit_zero: false,
            diagnostic: "No such file or directory".to_string(),
        },
    );
    assert!(matches!(p, Phase::CleanupIntake { .. }));
    assert!(matches!(a, Action::DeleteFile { .. }));
}

#[test]
fn failed_read_back_still_cleans_up() {
    let (p, _) = step(Phase::Awaiting, text_event(REQUEST_A));
    let (p, _) = step(p, Event::ActionOk);
    let (p, _) = step(p, Event::ActionOk);
    let (p, _) = step(
        p,
        Event::TranscodeDone { spawned: true, exit_zero: true, diagnostic: String::new() },
    );
    assert!(matches!(p, Phase::Reading { .. }));
    let (p, a) = step(p, Event::ActionFailed { diagnostic: "gone".to_string() });
    match (&p, &a) {
        (Phase::CleanupIntake { .. }, Action::DeleteFile { path }) => {
            assert_eq!(path, "./uploads/clip.mp4");
        }
        _ => panic!("expected the intake cleanup after a failed read"),
    }
}

#[test]
fn failed_delivery_still_cleans_up() {
    let (p, _) = step(Phase::Awaiting, text_event(REQUEST_A));
    let (p, _) = step(p, Event::ActionOk);
    let (p, _) = step(p, Event::ActionOk);
    let (p, _) = step(
        p,
        Event::TranscodeDone { spawned: true, exit_zero: true, diagnostic: String::new() },
    );
    let (p, _) = step(p, Event::BytesRead { bytes: vec![1u8] });
    assert!(matches!(p, Phase::Delivering { .. }));
    let (p, a) = step(p, Event::ActionFailed { diagnostic: "broken pipe".to_string() });
    assert!(matches!(p, Phase::CleanupIntake { .. }));
    assert!(matches!(a, Action::DeleteFile { .. }));
}

#[test]
fn malformed_request_is_silently_ignored() {
    let (p, a) = step(Phase::Awaiting, text_event("this is not json"));
    assert!(matches!(p, Phase::Awaiting));
    assert!(matches!(a, Action::Wait));

    let (p, a) = step(Phase::Awaiting, text_event("{\"file_name\":\"a.mp4\"}"));
    assert!(matches!(p, Phase::Awaiting));
    assert!(matches!(a, Action::Wait));

    let (p, a) = step(
        Phase::Awaiting,
        text_event("{\"file_name\":7,\"video_data\":\"QUJD\"}"),
    );
    assert!(matches!(p, Phase::Awaiting));
    assert!(matches!(a, Action::Wait));
}

#[test]
fn unsafe_file_name_is_rejected_with_an_error_status() {
    let request = "{\"file_name\":\"../evil.mp4\",\"video_data\":\"QUJD\"}";
    let (p, a) = step(Phase::Awaiting, text_event(request));
    match (&p, &a) {
        (Phase::Reporting, Action::SendText { text }) => {
            assert_eq!(text, "{\"status\":\"error\",\"message\":\"Invalid file name.\"}");
        }
        _ => panic!("expected the invalid-name status and no write"),
    }
}

#[test]
fn persist_failure_returns_to_awaiting() {
    let (p, _) = step(Phase::Awaiting, text_event(REQUEST_A));
    assert!(matches!(p, Phase::Persisting { .. }));
    let (p, a) = step(p, Event::ActionFailed { diagnostic: "disk full".to_string() });
    assert!(matches!(p, Phase::Awaiting));
    assert!(matches!(a, Action::Wait));
}

#[test]
fn notify_failure_aborts_the_cycle_before_transcoding() {
    let (p, _) = step(Phase::Awaiting, text_event(REQUEST_A));
    let (p, _) = step(p, Event::ActionOk);
    assert!(matches!(p, Phase::Notifying { .. }));
    let (p, a) = step(p, Event::ActionFailed { diagnostic: "closed".to_string() });
    assert!(matches!(p, Phase::Awaiting));
    assert!(matches!(a, Action::Wait));
}

#[test]
fn close_signal_ends_the_session() {
    let (p, a) = step(Phase::Awaiting, Event::Close);
    assert!(matches!(p, Phase::Closed));
    assert!(matches!(a, Action::Stop));
}

#[test]
fn stream_error_ends_the_session() {
    let (p, a) = step(Phase::Awaiting, Event::StreamError);
    assert!(matches!(p, Phase::Closed));
    assert!(matches!(a, Action::Stop));
}

#[test]
fn cleanup_failures_are_best_effort() {
    // A failed intake deletion does not stop the output deletion.
    let p = Phase::CleanupIntake { file_name: "clip.mp4".to_string() };
    let (p, a) = step(p, Event::ActionFailed { diagnostic: "not found".to_string() });
    match (&p, &a) {
        (Phase::CleanupOutput, Action::DeleteFile { path }) => {
            assert_eq!(path, "./transform_data/output.mp4");
        }
        _ => panic!("expected the output deletion despite the failure"),
    }
    // A failed output deletion still returns the machine to awaiting.
    let (p, a) = step(p, Event::ActionFailed { diagnostic: "not found".to_string() });
    assert!(matches!(p, Phase::Awaiting));
    assert!(matches!(a, Action::Wait));
}

#[test]
fn closed_session_stays_closed() {
    let (p, a) = step(Phase::Closed, Event::ActionOk);
    assert!(matches!(p, Phase::Closed));
    assert!(matches!(a, Action::Stop));
}
