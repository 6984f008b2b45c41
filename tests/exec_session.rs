use actions_toolkit::exec::{CommandSpec, ExecError, ExecOptions, ExecOutput, FFIExecListeners};
use actions_toolkit::session::{ExecSession, Phase, StreamKind};
use std::collections::HashMap;

fn all_listeners() -> ExecOptions {
    ExecOptions {
        silent: Some(true),
        listeners: Some(FFIExecListeners {
            stdout: true,
            stderr: true,
            stdline: true,
            errline: true,
            debug: false,
        }),
        ..ExecOptions::default()
    }
}

#[derive(Default)]
struct Seen {
    out_lines: Vec<Vec<u8>>,
    err_lines: Vec<Vec<u8>>,
    out_chunks: Vec<Vec<u8>>,
    err_chunks: Vec<Vec<u8>>,
    timers: Vec<usize>,
    result: Option<Result<ExecOutput, ExecError>>,
}

fn chunk(s: &mut ExecSession, seen: &mut Seen, kind: StreamKind, bytes: &[u8]) {
    let d = s.on_chunk(kind, bytes);
    assert!(d.echo.is_none());
    match kind {
        StreamKind::Stdout => {
            seen.out_chunks.extend(d.chunk);
            seen.out_lines.extend(d.lines);
        }
        StreamKind::Stderr => {
            seen.err_chunks.extend(d.chunk);
            seen.err_lines.extend(d.lines);
        }
    }
}

fn step(seen: &mut Seen, o: actions_toolkit::session::StepOutcome) {
    seen.out_lines.extend(o.stdout_line);
    seen.err_lines.extend(o.stderr_line);
    seen.timers.extend(o.start_grace_timer);
    if let Some(r) = o.result {
        assert!(seen.result.is_none());
        seen.result = Some(r);
    }
}

#[test]
fn unterminated_last_line_is_flushed() {
    let mut s = ExecSession::new(&all_listeners());
    let mut seen = Seen::default();
    chunk(&mut s, &mut seen, StreamKind::Stdout, b"a\nb");
    assert_eq!(seen.out_lines, vec![b"a".to_vec()]);
    step(&mut seen, s.on_exit(0));
    step(&mut seen, s.on_stream_end(StreamKind::Stdout));
    step(&mut seen, s.on_stream_end(StreamKind::Stderr));
    assert_eq!(seen.out_lines, vec![b"a".to_vec(), b"b".to_vec()]);
    assert_eq!(
        seen.result,
        Some(Ok(ExecOutput { exitCode: 0, stdout: "a\nb".to_string(), stderr: String::new() }))
    );
    assert_eq!(s.phase, Phase::Finalized);
}

#[test]
fn exit_code_one_fails_with_nonzero_exit() {
    let mut s = ExecSession::new(&ExecOptions::default());
    let mut seen = Seen::default();
    step(&mut seen, s.on_stream_end(StreamKind::Stdout));
    step(&mut seen, s.on_stream_end(StreamKind::Stderr));
    assert!(seen.result.is_none());
    step(&mut seen, s.on_exit(1));
    assert!(seen.timers.is_empty());
    assert_eq!(
        seen.result,
        Some(Err(ExecError::NonZeroExit { exit_code: 1, stderr: String::new() }))
    );
}

#[test]
fn stderr_only_with_fail_flag_fails() {
    let options = ExecOptions { failOnStdErr: Some(true), ..all_listeners() };
    let mut s = ExecSession::new(&options);
    let mut seen = Seen::default();
    chunk(&mut s, &mut seen, StreamKind::Stderr, b"oops\n");
    step(&mut seen, s.on_exit(0));
    step(&mut seen, s.on_stream_end(StreamKind::Stderr));
    step(&mut seen, s.on_stream_end(StreamKind::Stdout));
    assert_eq!(
        seen.result,
        Some(Err(ExecError::StdErrProduced { stderr: "oops\n".to_string() }))
    );
}

#[test]
fn environment_value_reaches_stdout() {
    let mut env = HashMap::new();
    env.insert("ENV_VAR".to_string(), "Value".to_string());
    let options = ExecOptions { env: Some(env), ..all_listeners() };
    let mut s = ExecSession::new(&options);
    let mut seen = Seen::default();
    chunk(&mut s, &mut seen, StreamKind::Stdout, b"ENV_VAR: \"Value\"\n");
    step(&mut seen, s.on_stream_end(StreamKind::Stdout));
    step(&mut seen, s.on_stream_end(StreamKind::Stderr));
    step(&mut seen, s.on_exit(0));
    let out = seen.result.unwrap().unwrap();
    assert!(out.stdout.contains("Value"));
    assert_eq!(out.stdout, "ENV_VAR: \"Value\"\n");
}

#[test]
fn stderr_line_split_across_reads_is_one_line() {
    let mut s = ExecSession::new(&all_listeners());
    let mut seen = Seen::default();
    chunk(&mut s, &mut seen, StreamKind::Stderr, b"warning: disk ne");
    assert!(seen.err_lines.is_empty());
    chunk(&mut s, &mut seen, StreamKind::Stderr, b"arly full\n");
    assert_eq!(seen.err_lines, vec![b"warning: disk nearly full".to_vec()]);
    step(&mut seen, s.on_stream_end(StreamKind::Stderr));
    assert_eq!(seen.err_lines.len(), 1);
}

#[test]
fn aggregate_is_every_chunk_delivered() {
    let mut s = ExecSession::new(&all_listeners());
    let mut seen = Seen::default();
    for c in [&b"x"[..], b"y\nz", b"", b"\r\nw"] {
        chunk(&mut s, &mut seen, StreamKind::Stdout, c);
    }
    chunk(&mut s, &mut seen, StreamKind::Stderr, b"e1");
    chunk(&mut s, &mut seen, StreamKind::Stderr, b"e2\n");
    step(&mut seen, s.on_stream_end(StreamKind::Stdout));
    step(&mut seen, s.on_stream_end(StreamKind::Stderr));
    step(&mut seen, s.on_exit(0));
    let out = seen.result.unwrap().unwrap();
    assert_eq!(out.stdout.as_bytes(), seen.out_chunks.concat().as_slice());
    assert_eq!(out.stderr.as_bytes(), seen.err_chunks.concat().as_slice());
    assert_eq!(out.stdout, "xy\nz\r\nw");
    assert_eq!(seen.out_lines, vec![b"xy".to_vec(), b"z".to_vec(), b"w".to_vec()]);
}

#[test]
fn grace_timeout_finalizes_with_what_arrived() {
    let options = ExecOptions { delay: Some(250), ..all_listeners() };
    let mut s = ExecSession::new(&options);
    let mut seen = Seen::default();
    chunk(&mut s, &mut seen, StreamKind::Stdout, b"done\npart");
    step(&mut seen, s.on_exit(0));
    assert_eq!(seen.timers, vec![250]);
    assert_eq!(s.phase, Phase::ExitedWaitingDrain);
    step(&mut seen, s.on_stream_end(StreamKind::Stderr));
    assert!(seen.result.is_none());
    step(&mut seen, s.on_grace_elapsed());
    assert_eq!(seen.out_lines, vec![b"done".to_vec(), b"part".to_vec()]);
    assert_eq!(
        seen.result,
        Some(Ok(ExecOutput { exitCode: 0, stdout: "done\npart".to_string(), stderr: String::new() }))
    );
    // Data after finalization is dropped.
    let d = s.on_chunk(StreamKind::Stdout, b"late\n");
    assert!(d.chunk.is_none() && d.lines.is_empty());
    assert!(s.on_stream_end(StreamKind::Stdout).result.is_none());
    assert!(s.on_exit(3).result.is_none());
    assert_eq!(s.exit_code, 0);
}

#[test]
fn default_grace_period_is_ten_seconds() {
    let mut s = ExecSession::new(&ExecOptions::default());
    let o = s.on_exit(0);
    assert_eq!(o.start_grace_timer, Some(10000));
    assert!(s.on_grace_elapsed().result.is_some());
}

#[test]
fn grace_before_exit_is_ignored() {
    let mut s = ExecSession::new(&ExecOptions::default());
    let o = s.on_grace_elapsed();
    assert!(o.result.is_none());
    assert_eq!(s.phase, Phase::Running);
}

#[test]
fn echo_follows_silent_flag() {
    let mut s = ExecSession::new(&ExecOptions::default());
    let d = s.on_chunk(StreamKind::Stdout, b"hi\n");
    assert_eq!(d.echo, Some(b"hi\n".to_vec()));
    assert!(d.chunk.is_none());
    assert!(d.lines.is_empty());
    let mut quiet = ExecSession::new(&ExecOptions { silent: Some(true), ..ExecOptions::default() });
    assert!(quiet.on_chunk(StreamKind::Stdout, b"hi\n").echo.is_none());
}

#[test]
fn invalid_utf8_is_replaced() {
    let mut s = ExecSession::new(&ExecOptions::default());
    s.on_chunk(StreamKind::Stdout, &[b'o', 0xff, b'k']);
    s.on_stream_end(StreamKind::Stdout);
    s.on_stream_end(StreamKind::Stderr);
    let out = s.on_exit(0).result.unwrap().unwrap();
    assert_eq!(out.stdout, "o\u{FFFD}k");
}

#[test]
fn ignored_return_code_keeps_true_code() {
    let options = ExecOptions { ignoreReturnCode: Some(true), ..ExecOptions::default() };
    let mut s = ExecSession::new(&options);
    s.on_stream_end(StreamKind::Stdout);
    s.on_stream_end(StreamKind::Stderr);
    let out = s.on_exit(42).result.unwrap().unwrap();
    assert_eq!(out.exitCode, 42);
}

#[test]
fn command_needs_a_program() {
    assert_eq!(CommandSpec::new(String::new(), vec!["-c".to_string()]), None);
    let c = CommandSpec::new("bash".to_string(), vec!["-c".to_string()]).unwrap();
    assert_eq!(c.program, "bash");
    assert_eq!(c.args, vec!["-c".to_string()]);
}
