use rustymode::frame::Frame;
use rustymode::mjpeg::{
    encode_part, http_response_header, part_header, session_transcript, usize_to_decimal,
};
use rustymode::streaming::{
    AcceptOutcome, ActiveAction, IdleAction, StreamPhase, Streamer, POLL_INTERVAL_MS,
};

#[test]
fn decimal_rendering_is_exact() {
    assert_eq!(usize_to_decimal(0), "0");
    assert_eq!(usize_to_decimal(9), "9");
    assert_eq!(usize_to_decimal(10), "10");
    assert_eq!(usize_to_decimal(105), "105");
    assert_eq!(usize_to_decimal(98765), "98765");
}

#[test]
fn response_header_is_the_fixed_multipart_announcement() {
    assert_eq!(
        http_response_header(),
        "HTTP/1.1 200 OK\r\nContent-Type: multipart/x-mixed-replace; boundary=frame\r\n\r\n"
    );
}

#[test]
fn part_header_carries_the_exact_length() {
    assert_eq!(
        part_header(12345),
        "--frame\r\nContent-Type: image/jpeg\r\nContent-Length: 12345\r\n\r\n"
    );
    assert_eq!(
        part_header(0),
        "--frame\r\nContent-Type: image/jpeg\r\nContent-Length: 0\r\n\r\n"
    );
}

#[test]
fn encoded_part_wraps_the_payload() {
    let payload = vec![0xffu8, 0xd8, 0x00, 0x1f];
    let part = encode_part(&payload);
    let mut expected =
        b"--frame\r\nContent-Type: image/jpeg\r\nContent-Length: 4\r\n\r\n".to_vec();
    expected.extend_from_slice(&payload);
    expected.extend_from_slice(b"\r\n");
    assert_eq!(part, expected);
}

#[test]
fn session_with_three_frames_has_one_header_and_three_sections() {
    let payloads = vec![vec![1u8, 2, 3], vec![], vec![9u8; 300]];
    let transcript = session_transcript(&payloads);
    let mut expected = http_response_header().as_bytes().to_vec();
    for p in &payloads {
        expected.extend_from_slice(
            format!(
                "--frame\r\nContent-Type: image/jpeg\r\nContent-Length: {}\r\n\r\n",
                p.len()
            )
            .as_bytes(),
        );
        expected.extend_from_slice(p);
        expected.extend_from_slice(b"\r\n");
    }
    assert_eq!(transcript, expected);
    let boundary_count = transcript
        .windows(b"--frame\r\n".len())
        .filter(|w| *w == b"--frame\r\n")
        .count();
    assert_eq!(boundary_count, 3);
    assert!(transcript.starts_with(b"HTTP/1.1 200 OK\r\n"));
}

#[test]
fn idle_streamer_stops_on_cancellation() {
    let mut s = Streamer::new();
    assert!(matches!(
        s.idle_step(true, AcceptOutcome::Connected),
        IdleAction::Stop
    ));
    assert!(!s.client_active);
}

#[test]
fn idle_streamer_sleeps_one_poll_interval() {
    let mut s = Streamer::new();
    match s.idle_step(false, AcceptOutcome::NoPending) {
        IdleAction::Sleep(ms) => assert_eq!(ms, POLL_INTERVAL_MS),
        _ => panic!("no pending client: the stage must sleep and poll again"),
    }
    assert!(!s.client_active);
}

#[test]
fn accepted_client_raises_the_streaming_flag() {
    let mut s = Streamer::new();
    assert!(matches!(
        s.idle_step(false, AcceptOutcome::Connected),
        IdleAction::SendHeader
    ));
    assert!(s.client_active);
    assert!(s.phase == StreamPhase::Active);
}

#[test]
fn active_streamer_serves_received_frames() {
    let mut s = Streamer::new();
    s.idle_step(false, AcceptOutcome::Connected);
    let f = Frame::new(vec![4, 5, 6], 1000);
    match s.active_step(false, Some(f)) {
        ActiveAction::SendPart(g) => assert_eq!(g.data, vec![4, 5, 6]),
        _ => panic!("a received frame must be served"),
    }
    assert!(s.client_active);
}

#[test]
fn disconnection_clears_flag_before_next_duplicate() {
    let mut s = Streamer::new();
    s.idle_step(false, AcceptOutcome::Connected);
    assert!(s.client_active);
    s.on_write_result(false);
    assert!(!s.client_active);
    assert!(s.phase == StreamPhase::Idle);
    let next = rustymode::capture::capture_step(
        false,
        rustymode::capture::GrabOutcome::Grabbed(Frame::new(vec![1], 2)),
        s.client_active,
    );
    match next {
        rustymode::capture::CaptureAction::Forward { duplicate, .. } => {
            assert!(duplicate.is_none())
        }
        _ => panic!("capture still forwards to detection"),
    }
}

#[test]
fn successful_write_keeps_the_client() {
    let mut s = Streamer::new();
    s.idle_step(false, AcceptOutcome::Connected);
    s.on_write_result(true);
    assert!(s.client_active);
    assert!(s.phase == StreamPhase::Active);
}

#[test]
fn active_streamer_idles_when_channel_closes_and_stops_on_cancel() {
    let mut s = Streamer::new();
    s.idle_step(false, AcceptOutcome::Connected);
    assert!(matches!(s.active_step(false, None), ActiveAction::BackToIdle));
    assert!(!s.client_active);
    s.idle_step(false, AcceptOutcome::Connected);
    assert!(matches!(
        s.active_step(true, Some(Frame::new(vec![1], 1))),
        ActiveAction::Stop
    ));
}
