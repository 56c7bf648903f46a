//! Multiplexer sessions driven event by event.

use freeitw::mux::{MuxEvent, MuxOutput, MuxState, StdinAction};

fn chunk_of(out: Option<MuxOutput>) -> Vec<u8> {
    match out {
        Some(MuxOutput::Chunk(b)) => b,
        other => panic!("expected a chunk, got {:?}", other.is_some()),
    }
}

#[test]
fn bash_echo_streams_stdout() {
    // A child that writes "hi\n" and exits; no status chunk asked for.
    let mut m = MuxState::new(false);
    let (act, out) = m.step(MuxEvent::StdoutRead(Ok(b"hi\n".to_vec())));
    assert!(matches!(act, StdinAction::Keep));
    assert_eq!(chunk_of(out), b"hi\n".to_vec());
    assert!(!m.terminated);
    let (act, out) = m.step(MuxEvent::ChildWait(Ok("exit status: 0".to_string())));
    assert!(matches!(act, StdinAction::Keep));
    assert!(out.is_none());
    assert!(m.terminated);
}

#[test]
fn bash_status_appends_exit_status_last() {
    let mut m = MuxState::new(true);
    let (_, out) = m.step(MuxEvent::StdoutRead(Ok(b"hi\n".to_vec())));
    assert_eq!(chunk_of(out), b"hi\n".to_vec());
    let (_, out) = m.step(MuxEvent::ChildWait(Ok("exit status: 0".to_string())));
    assert_eq!(chunk_of(out), b"Exit status exit status: 0".to_vec());
    assert!(m.terminated);
}

#[test]
fn stdin_passthrough_writes_body() {
    let mut m = MuxState::new(false);
    let (act, out) = m.step(MuxEvent::BodyRead(Ok(b"hello\nworld\n".to_vec())));
    assert!(out.is_none());
    match act {
        StdinAction::Write(b) => assert_eq!(b, b"hello\nworld\n".to_vec()),
        _ => panic!("expected a write"),
    }
}

#[test]
fn body_eof_drops_stdin_and_output_still_flows() {
    let mut m = MuxState::new(false);
    let (act, out) = m.step(MuxEvent::BodyRead(Ok(Vec::new())));
    assert!(matches!(act, StdinAction::Close));
    assert!(out.is_none());
    assert!(!m.stdin_open);
    // A child that never read its stdin still has its output forwarded.
    let (act, out) = m.step(MuxEvent::StdoutRead(Ok(b"late\n".to_vec())));
    assert!(matches!(act, StdinAction::Keep));
    assert_eq!(chunk_of(out), b"late\n".to_vec());
    // Further body bytes after the drop are discarded, not written.
    let (act, out) = m.step(MuxEvent::BodyRead(Ok(b"ignored".to_vec())));
    assert!(matches!(act, StdinAction::Keep));
    assert!(out.is_none());
}

#[test]
fn large_body_arrives_in_exact_pieces() {
    // A body larger than one read buffer arrives as several events; the
    // child must receive the exact concatenation.
    let first = vec![7u8; 128];
    let second = vec![9u8; 100];
    let mut m = MuxState::new(false);
    let mut written: Vec<u8> = Vec::new();
    for piece in [first.clone(), second.clone()] {
        let (act, out) = m.step(MuxEvent::BodyRead(Ok(piece)));
        assert!(out.is_none());
        match act {
            StdinAction::Write(b) => written.extend_from_slice(&b),
            _ => panic!("expected a write"),
        }
    }
    let mut expected = first;
    expected.extend_from_slice(&second);
    assert_eq!(written, expected);
}

#[test]
fn stdin_write_failure_closes_quietly() {
    let mut m = MuxState::new(false);
    let (act, out) = m.step(MuxEvent::StdinWriteFailed);
    assert!(matches!(act, StdinAction::Close));
    assert!(out.is_none());
    assert!(!m.stdin_open);
    assert!(!m.terminated);
    let (act, out) = m.step(MuxEvent::StdinWriteFailed);
    assert!(matches!(act, StdinAction::Keep));
    assert!(out.is_none());
}

#[test]
fn mid_stream_stderr_keeps_stdout_order() {
    let mut m = MuxState::new(false);
    let mut chunks: Vec<Vec<u8>> = Vec::new();
    for ev in [
        MuxEvent::StdoutRead(Ok(b"out\n".to_vec())),
        MuxEvent::StderrRead(Ok(b"err\n".to_vec())),
        MuxEvent::StdoutRead(Ok(b"out2\n".to_vec())),
    ] {
        let (_, out) = m.step(ev);
        chunks.push(chunk_of(out));
    }
    let joined: Vec<u8> = chunks.concat();
    let text = String::from_utf8(joined).unwrap();
    assert!(text.contains("out\n"));
    assert!(text.contains("err\n"));
    assert!(text.contains("out2\n"));
    let out_pos = text.find("out\n").unwrap();
    let out2_pos = text.find("out2\n").unwrap();
    assert!(out_pos < out2_pos);
}

#[test]
fn empty_stdout_read_is_still_a_chunk() {
    let mut m = MuxState::new(false);
    let (_, out) = m.step(MuxEvent::StdoutRead(Ok(Vec::new())));
    assert_eq!(chunk_of(out), Vec::<u8>::new());
    assert!(!m.terminated);
}

#[test]
fn read_errors_surface_and_terminate() {
    let mut m = MuxState::new(false);
    let (_, out) = m.step(MuxEvent::StdoutRead(Err("boom".to_string())));
    match out {
        Some(MuxOutput::Fail(msg)) => assert_eq!(msg, "boom"),
        _ => panic!("expected a failure"),
    }
    assert!(m.terminated);

    let mut m = MuxState::new(false);
    let (_, out) = m.step(MuxEvent::StderrRead(Err("err pipe".to_string())));
    assert!(matches!(out, Some(MuxOutput::Fail(_))));
    assert!(m.terminated);

    let mut m = MuxState::new(false);
    let (_, out) = m.step(MuxEvent::BodyRead(Err("body gone".to_string())));
    assert!(matches!(out, Some(MuxOutput::Fail(_))));
    assert!(m.terminated);

    let mut m = MuxState::new(true);
    let (_, out) = m.step(MuxEvent::ChildWait(Err("wait failed".to_string())));
    match out {
        Some(MuxOutput::Fail(msg)) => assert_eq!(msg, "wait failed"),
        _ => panic!("expected a failure"),
    }
    assert!(m.terminated);
}

#[test]
fn total_bytes_out_equal_child_output_plus_status() {
    // Byte conservation on a concrete clean run.
    let mut m = MuxState::new(true);
    let mut total: usize = 0;
    let events = vec![
        MuxEvent::StdoutRead(Ok(b"abc".to_vec())),
        MuxEvent::StderrRead(Ok(b"de".to_vec())),
        MuxEvent::StdoutRead(Ok(b"f".to_vec())),
        MuxEvent::ChildWait(Ok("exit status: 0".to_string())),
    ];
    for ev in events {
        let (_, out) = m.step(ev);
        if let Some(MuxOutput::Chunk(b)) = out {
            total += b.len();
        }
    }
    assert_eq!(total, 3 + 2 + 1 + "Exit status exit status: 0".len());
}
