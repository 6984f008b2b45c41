use crate::exec::{ExecError, ExecOptions, ExecOutput};
use crate::line_buffer::{
    bytes_view, fed_lines, fed_pending, final_lines_of, joined, law_chunking_invisible, lines_of,
    LineBuffer,
};
use crate::policy::{outcome_spec, resolve_outcome};
use vstd::prelude::*;

verus! {

/// Text decoded from bytes as UTF-8, each invalid sequence replaced by U+FFFD.
pub uninterp spec fn utf8_lossy(b: Seq<u8>) -> Seq<char>;

/// Relies on String::from_utf8_lossy: the text depends on the bytes alone,
/// and no bytes give no text.
#[verifier::external_body]
fn decode_utf8(b: &Vec<u8>) -> (r: String)
    ensures
        r@ == utf8_lossy(b@),
        b@.len() == 0 ==> r@.len() == 0,
{
    String::from_utf8_lossy(b).into_owned()
}

/// A vector holding the bytes of a slice.
fn copy_bytes(b: &[u8]) -> (r: Vec<u8>)
    ensures
        r@ == b@,
{
    let mut v: Vec<u8> = Vec::new();
    v.extend_from_slice(b);
    assert(v@ =~= b@);
    v
}

/// One of the two output streams of a child process.
#[derive(Clone, Copy, Debug, PartialEq, Eq, Structural)]
pub enum StreamKind {
    Stdout,
    Stderr,
}

/// What a chunk is handed on to: the echo, the chunk listener, and the line
/// listener, in that order.
#[derive(Debug)]
pub struct ChunkDelivery {
    /// The chunk, when output is echoed.
    pub echo: Option<Vec<u8>>,
    /// The chunk, when a chunk listener is present.
    pub chunk: Option<Vec<u8>>,
    /// The lines the chunk completes, when a line listener is present.
    pub lines: Vec<Vec<u8>>,
}

/// The view of an optional byte vector.
pub open spec fn opt_bytes(o: Option<Vec<u8>>) -> Option<Seq<u8>> {
    match o {
        Some(v) => Some(v@),
        None => None,
    }
}

/// Pumps one output stream: aggregates its chunks and splits them into lines.
pub struct StreamPump {
    /// The unfinished line.
    pub lines: LineBuffer,
    /// Every byte received so far.
    pub aggregate: Vec<u8>,
    /// Whether the stream reached its end.
    pub ended: bool,
    /// Whether a chunk listener is present.
    pub chunk_listener: bool,
    /// Whether a line listener is present.
    pub line_listener: bool,
    /// Whether chunks are echoed.
    pub echo: bool,
    /// The chunks received so far, in order.
    pub received: Ghost<Seq<Seq<u8>>>,
    /// The lines handed to the line listener so far, in order.
    pub delivered: Ghost<Seq<Seq<u8>>>,
}

/// The lines owed to a line listener by the chunks received, and, once the
/// stream ended, by its flushed rest.
pub open spec fn delivered_spec(received: Seq<Seq<u8>>, ended: bool) -> Seq<Seq<u8>> {
    if ended && fed_pending(received).len() > 0 {
        fed_lines(received).push(fed_pending(received))
    } else {
        fed_lines(received)
    }
}

impl StreamPump {
    /// The aggregate is all chunks received; until the end, the pending line
    /// is what the line buffer was left with by those chunks.
    pub open spec fn wf(&self) -> bool {
        &&& self.lines.wf()
        &&& self.aggregate@ == joined(self.received@)
        &&& !self.ended ==> self.lines.pending@ == fed_pending(self.received@)
        &&& self.line_listener ==> self.delivered@ == delivered_spec(self.received@, self.ended)
    }

    /// The line flushed when the stream ends now.
    pub open spec fn flush_spec(&self) -> Option<Seq<u8>> {
        if !self.ended && self.line_listener && self.lines.pending@.len() > 0 {
            Some(self.lines.pending@)
        } else {
            None
        }
    }

    /// A pump that has received nothing.
    pub fn new(echo: bool, chunk_listener: bool, line_listener: bool) -> (r: StreamPump)
        ensures
            r.wf(),
            !r.ended,
            r.received@ == Seq::<Seq<u8>>::empty(),
            r.echo == echo,
            r.chunk_listener == chunk_listener,
            r.line_listener == line_listener,
    {
        StreamPump {
            lines: LineBuffer::new(),
            aggregate: Vec::new(),
            ended: false,
            chunk_listener,
            line_listener,
            echo,
            received: Ghost(Seq::empty()),
            delivered: Ghost(Seq::empty()),
        }
    }

    /// Takes one chunk: appends it to the aggregate, and says where it goes.
    pub fn push(&mut self, chunk: &[u8]) -> (r: ChunkDelivery)
        requires
            old(self).wf(),
            !old(self).ended,
        ensures
            final(self).wf(),
            !final(self).ended,
            final(self).received@ == old(self).received@.push(chunk@),
            final(self).echo == old(self).echo,
            final(self).chunk_listener == old(self).chunk_listener,
            final(self).line_listener == old(self).line_listener,
            opt_bytes(r.echo) == if old(self).echo {
                Some(chunk@)
            } else {
                None
            },
            opt_bytes(r.chunk) == if old(self).chunk_listener {
                Some(chunk@)
            } else {
                None
            },
            bytes_view(r.lines@) == if old(self).line_listener {
                lines_of(old(self).lines.pending@ + chunk@)
            } else {
                Seq::<Seq<u8>>::empty()
            },
    {
        let ghost before = self.received@;
        self.aggregate.extend_from_slice(chunk);
        self.received = Ghost(before.push(chunk@));
        proof {
            let after = before.push(chunk@);
            assert(after.drop_last() =~= before);
            assert(self.aggregate@ =~= joined(after));
        }
        let lines = self.lines.push(chunk);
        proof {
            let after = before.push(chunk@);
            assert(after.drop_last() =~= before);
            assert(fed_lines(after) == fed_lines(before) + lines_of(
                fed_pending(before) + chunk@,
            ));
            if self.line_listener {
                self.delivered@ = self.delivered@ + bytes_view(lines@);
            }
        }
        let echo = if self.echo {
            Some(copy_bytes(chunk))
        } else {
            None
        };
        let whole = if self.chunk_listener {
            Some(copy_bytes(chunk))
        } else {
            None
        };
        let lines = if self.line_listener {
            lines
        } else {
            Vec::new()
        };
        proof {
            assert(bytes_view(Seq::<Vec<u8>>::empty()) =~= Seq::<Seq<u8>>::empty());
        }
        ChunkDelivery { echo, chunk: whole, lines }
    }

    /// Marks the end of the stream and returns the unterminated rest as a
    /// last line, when there is one and a line listener takes it.
    pub fn end(&mut self) -> (r: Option<Vec<u8>>)
        requires
            old(self).wf(),
        ensures
            final(self).wf(),
            final(self).ended,
            final(self).aggregate == old(self).aggregate,
            final(self).received@ == old(self).received@,
            final(self).echo == old(self).echo,
            final(self).chunk_listener == old(self).chunk_listener,
            final(self).line_listener == old(self).line_listener,
            opt_bytes(r) == old(self).flush_spec(),
    {
        if self.ended {
            return None;
        }
        let rest = self.lines.finish();
        self.ended = true;
        proof {
            if self.line_listener && fed_pending(self.received@).len() > 0 {
                self.delivered@ = self.delivered@.push(fed_pending(self.received@));
            }
        }
        if self.line_listener {
            rest
        } else {
            None
        }
    }
}

/// Where an execution stands.
#[derive(Clone, Copy, Debug, PartialEq, Eq, Structural)]
pub enum Phase {
    /// The process runs.
    Running,
    /// The process exited; the streams may still be draining.
    ExitedWaitingDrain,
    /// The result was handed out; later events change nothing.
    Finalized,
}

/// What the driver of an execution does after an event: deliver the lines
/// flushed at a stream's end, start the grace timer, hand out the result.
#[derive(Debug)]
pub struct StepOutcome {
    /// The last stdout line, flushed at its end.
    pub stdout_line: Option<Vec<u8>>,
    /// The last stderr line, flushed at its end.
    pub stderr_line: Option<Vec<u8>>,
    /// Start a timer of this many milliseconds, then report it elapsed.
    pub start_grace_timer: Option<usize>,
    /// The result of the execution, handed out exactly once.
    pub result: Option<Result<ExecOutput, ExecError>>,
}

/// Whether an outcome asks for nothing.
pub open spec fn is_idle(o: StepOutcome) -> bool {
    &&& o.stdout_line is None
    &&& o.stderr_line is None
    &&& o.start_grace_timer is None
    &&& o.result is None
}

fn idle() -> (r: StepOutcome)
    ensures
        is_idle(r),
{
    StepOutcome { stdout_line: None, stderr_line: None, start_grace_timer: None, result: None }
}

/// The decisions of one execution: feeds both streams, joins the process's
/// exit with the end of its streams under a grace period, and applies the
/// failure policy.
pub struct ExecSession {
    /// The stdout pump.
    pub stdout: StreamPump,
    /// The stderr pump.
    pub stderr: StreamPump,
    /// Where the execution stands.
    pub phase: Phase,
    /// The exit code, once the process exited.
    pub exit_code: isize,
    /// Whether output on stderr fails the call.
    pub fail_on_std_err: bool,
    /// Whether a nonzero exit code is left to the caller.
    pub ignore_return_code: bool,
    /// How long to wait for the streams after the exit.
    pub grace_millis: usize,
}

impl ExecSession {
    /// Both pumps are sound; a drain wait has a stream open; a finished
    /// execution has both ended.
    pub open spec fn wf(&self) -> bool {
        &&& self.stdout.wf()
        &&& self.stderr.wf()
        &&& self.phase == Phase::ExitedWaitingDrain ==> !(self.stdout.ended && self.stderr.ended)
        &&& self.phase == Phase::Finalized ==> self.stdout.ended && self.stderr.ended
    }

    /// All of stdout received, as text.
    pub open spec fn stdout_text(&self) -> Seq<char> {
        utf8_lossy(joined(self.stdout.received@))
    }

    /// All of stderr received, as text.
    pub open spec fn stderr_text(&self) -> Seq<char> {
        utf8_lossy(joined(self.stderr.received@))
    }

    /// The result owed once the execution is finalized: the verdict over the
    /// exit code and whether stderr saw a byte, carrying the full output.
    pub open spec fn result_spec(&self, r: Result<ExecOutput, ExecError>) -> bool {
        outcome_spec(
            self.exit_code as int,
            self.stdout_text(),
            self.stderr_text(),
            joined(self.stderr.received@).len() > 0,
            self.fail_on_std_err,
            self.ignore_return_code,
            r,
        )
    }

    /// The pump of a stream.
    pub open spec fn pump(&self, kind: StreamKind) -> StreamPump {
        match kind {
            StreamKind::Stdout => self.stdout,
            StreamKind::Stderr => self.stderr,
        }
    }

    /// A session for a process just launched with the given options.
    pub fn new(options: &ExecOptions) -> (r: ExecSession)
        ensures
            r.wf(),
            r.phase == Phase::Running,
            !r.stdout.ended && !r.stderr.ended,
            r.stdout.received@ == Seq::<Seq<u8>>::empty(),
            r.stderr.received@ == Seq::<Seq<u8>>::empty(),
            r.stdout.echo == !crate::exec::flag_or(options.silent, false),
            r.stderr.echo == !crate::exec::flag_or(options.silent, false),
            r.stdout.chunk_listener == (options.listeners matches Some(l) && l.stdout),
            r.stderr.chunk_listener == (options.listeners matches Some(l) && l.stderr),
            r.stdout.line_listener == (options.listeners matches Some(l) && l.stdline),
            r.stderr.line_listener == (options.listeners matches Some(l) && l.errline),
            r.fail_on_std_err == crate::exec::flag_or(options.failOnStdErr, false),
            r.ignore_return_code == crate::exec::flag_or(options.ignoreReturnCode, false),
            r.grace_millis == options.drain_grace_spec(),
    {
        let echo = !options.is_silent();
        let l = options.listener_set();
        ExecSession {
            stdout: StreamPump::new(echo, l.stdout, l.stdline),
            stderr: StreamPump::new(echo, l.stderr, l.errline),
            phase: Phase::Running,
            exit_code: 0,
            fail_on_std_err: options.fails_on_std_err(),
            ignore_return_code: options.ignores_return_code(),
            grace_millis: options.drain_grace_millis(),
        }
    }

    fn finalize(&mut self) -> (r: Result<ExecOutput, ExecError>)
        requires
            old(self).stdout.wf(),
            old(self).stderr.wf(),
            old(self).stdout.ended && old(self).stderr.ended,
        ensures
            *final(self) == (ExecSession { phase: Phase::Finalized, ..*old(self) }),
            final(self).wf(),
            final(self).result_spec(r),
    {
        self.phase = Phase::Finalized;
        let out = decode_utf8(&self.stdout.aggregate);
        let err = decode_utf8(&self.stderr.aggregate);
        let seen = self.stderr.aggregate.len() > 0;
        resolve_outcome(
            self.exit_code,
            out,
            err,
            seen,
            self.fail_on_std_err,
            self.ignore_return_code,
        )
    }

    /// A chunk arrived on a stream. Once the stream ended or the execution
    /// was finalized, chunks are dropped.
    pub fn on_chunk(&mut self, kind: StreamKind, chunk: &[u8]) -> (r: ChunkDelivery)
        requires
            old(self).wf(),
        ensures
            final(self).wf(),
            final(self).phase == old(self).phase,
            final(self).exit_code == old(self).exit_code,
            old(self).phase == Phase::Finalized || old(self).pump(kind).ended ==> {
                &&& *final(self) == *old(self)
                &&& r.echo is None && r.chunk is None && r.lines@.len() == 0
            },
            old(self).phase != Phase::Finalized && !old(self).pump(kind).ended ==> {
                let p = old(self).pump(kind);
                let q = final(self).pump(kind);
                &&& q == (StreamPump {
                    lines: q.lines,
                    aggregate: q.aggregate,
                    received: Ghost(p.received@.push(chunk@)),
                    delivered: q.delivered,
                    ..p
                })
                &&& q.wf()
                &&& kind == StreamKind::Stdout ==> final(self).stderr == old(self).stderr
                &&& kind == StreamKind::Stderr ==> final(self).stdout == old(self).stdout
                &&& opt_bytes(r.echo) == if p.echo {
                    Some(chunk@)
                } else {
                    None
                }
                &&& opt_bytes(r.chunk) == if p.chunk_listener {
                    Some(chunk@)
                } else {
                    None
                }
                &&& bytes_view(r.lines@) == if p.line_listener {
                    lines_of(p.lines.pending@ + chunk@)
                } else {
                    Seq::<Seq<u8>>::empty()
                }
            },
            final(self).fail_on_std_err == old(self).fail_on_std_err,
            final(self).ignore_return_code == old(self).ignore_return_code,
            final(self).grace_millis == old(self).grace_millis,
    {
        if self.phase == Phase::Finalized {
            return ChunkDelivery { echo: None, chunk: None, lines: Vec::new() };
        }
        match kind {
            StreamKind::Stdout => {
                if self.stdout.ended {
                    return ChunkDelivery { echo: None, chunk: None, lines: Vec::new() };
                }
                self.stdout.push(chunk)
            },
            StreamKind::Stderr => {
                if self.stderr.ended {
                    return ChunkDelivery { echo: None, chunk: None, lines: Vec::new() };
                }
                self.stderr.push(chunk)
            },
        }
    }

    /// The process exited with `code`. With both streams ended the result is
    /// handed out at once; else the grace timer starts. Only the first exit
    /// counts.
    pub fn on_exit(&mut self, code: isize) -> (r: StepOutcome)
        requires
            old(self).wf(),
        ensures
            final(self).wf(),
            old(self).phase != Phase::Running ==> *final(self) == *old(self) && is_idle(r),
            old(self).phase == Phase::Running ==> {
                &&& final(self).stdout == old(self).stdout
                &&& final(self).stderr == old(self).stderr
                &&& final(self).exit_code == code
                &&& final(self).fail_on_std_err == old(self).fail_on_std_err
                &&& final(self).ignore_return_code == old(self).ignore_return_code
                &&& final(self).grace_millis == old(self).grace_millis
                &&& r.stdout_line is None && r.stderr_line is None
                &&& if old(self).stdout.ended && old(self).stderr.ended {
                    &&& final(self).phase == Phase::Finalized
                    &&& r.start_grace_timer is None
                    &&& r.result matches Some(res) && final(self).result_spec(res)
                } else {
                    &&& final(self).phase == Phase::ExitedWaitingDrain
                    &&& r.start_grace_timer == Some(old(self).grace_millis)
                    &&& r.result is None
                }
            },
    {
        if self.phase != Phase::Running {
            return idle();
        }
        self.exit_code = code;
        if self.stdout.ended && self.stderr.ended {
            let res = self.finalize();
            StepOutcome {
                stdout_line: None,
                stderr_line: None,
                start_grace_timer: None,
                result: Some(res),
            }
        } else {
            self.phase = Phase::ExitedWaitingDrain;
            StepOutcome {
                stdout_line: None,
                stderr_line: None,
                start_grace_timer: Some(self.grace_millis),
                result: None,
            }
        }
    }

    /// A stream reached its end: its unterminated rest is flushed as a last
    /// line. When the process already exited and the other stream ended too,
    /// the result is handed out.
    pub fn on_stream_end(&mut self, kind: StreamKind) -> (r: StepOutcome)
        requires
            old(self).wf(),
        ensures
            final(self).wf(),
            old(self).phase == Phase::Finalized || old(self).pump(kind).ended ==> *final(self)
                == *old(self) && is_idle(r),
            old(self).phase != Phase::Finalized && !old(self).pump(kind).ended ==> {
                let p = old(self).pump(kind);
                let q = final(self).pump(kind);
                let drained = old(self).phase == Phase::ExitedWaitingDrain;
                &&& q == (StreamPump { lines: q.lines, ended: true, delivered: q.delivered, ..p })
                &&& q.wf()
                &&& kind == StreamKind::Stdout ==> final(self).stderr == old(self).stderr
                    && opt_bytes(r.stdout_line) == p.flush_spec() && r.stderr_line is None
                &&& kind == StreamKind::Stderr ==> final(self).stdout == old(self).stdout
                    && opt_bytes(r.stderr_line) == p.flush_spec() && r.stdout_line is None
                &&& final(self).exit_code == old(self).exit_code
                &&& final(self).fail_on_std_err == old(self).fail_on_std_err
                &&& final(self).ignore_return_code == old(self).ignore_return_code
                &&& final(self).grace_millis == old(self).grace_millis
                &&& r.start_grace_timer is None
                &&& if drained && final(self).stdout.ended && final(self).stderr.ended {
                    &&& final(self).phase == Phase::Finalized
                    &&& r.result matches Some(res) && final(self).result_spec(res)
                } else {
                    &&& final(self).phase == old(self).phase
                    &&& r.result is None
                }
            },
    {
        if self.phase == Phase::Finalized {
            return idle();
        }
        let mut out = idle();
        match kind {
            StreamKind::Stdout => {
                if self.stdout.ended {
                    return idle();
                }
                out.stdout_line = self.stdout.end();
            },
            StreamKind::Stderr => {
                if self.stderr.ended {
                    return idle();
                }
                out.stderr_line = self.stderr.end();
            },
        }
        if self.phase == Phase::ExitedWaitingDrain && self.stdout.ended && self.stderr.ended {
            out.result = Some(self.finalize());
        }
        out
    }

    /// The grace timer elapsed while the streams were still draining: the
    /// open streams are ended where they stand, their rests flushed, and the
    /// result handed out with whatever data arrived.
    pub fn on_grace_elapsed(&mut self) -> (r: StepOutcome)
        requires
            old(self).wf(),
        ensures
            final(self).wf(),
            old(self).phase != Phase::ExitedWaitingDrain ==> *final(self) == *old(self) && is_idle(
                r,
            ),
            old(self).phase == Phase::ExitedWaitingDrain ==> {
                &&& final(self).phase == Phase::Finalized
                &&& final(self).stdout == (StreamPump {
                    lines: final(self).stdout.lines,
                    ended: true,
                    delivered: final(self).stdout.delivered,
                    ..old(self).stdout
                })
                &&& final(self).stderr == (StreamPump {
                    lines: final(self).stderr.lines,
                    ended: true,
                    delivered: final(self).stderr.delivered,
                    ..old(self).stderr
                })
                &&& final(self).exit_code == old(self).exit_code
                &&& final(self).fail_on_std_err == old(self).fail_on_std_err
                &&& final(self).ignore_return_code == old(self).ignore_return_code
                &&& final(self).grace_millis == old(self).grace_millis
                &&& opt_bytes(r.stdout_line) == old(self).stdout.flush_spec()
                &&& opt_bytes(r.stderr_line) == old(self).stderr.flush_spec()
                &&& r.start_grace_timer is None
                &&& r.result matches Some(res) && final(self).result_spec(res)
            },
    {
        if self.phase != Phase::ExitedWaitingDrain {
            return idle();
        }
        let stdout_line = self.stdout.end();
        let stderr_line = self.stderr.end();
        let res = self.finalize();
        StepOutcome { stdout_line, stderr_line, start_grace_timer: None, result: Some(res) }
    }
}

/// Over a whole stream, however it was chunked, the line listener is handed
/// the lines of all bytes received, then the unterminated rest.
pub proof fn law_stream_lines(p: StreamPump)
    requires
        p.wf(),
        p.line_listener,
        p.ended,
    ensures
        p.delivered@ == final_lines_of(joined(p.received@)),
{
    law_chunking_invisible(p.received@);
}

/// Aggregate completeness: the result of an execution carries, as text, the
/// full concatenation of the chunks each stream received (and handed to its
/// chunk listener), whatever lines they were split into.
pub proof fn law_aggregate_completeness(s: ExecSession, r: Result<ExecOutput, ExecError>)
    requires
        s.wf(),
        s.result_spec(r),
    ensures
        s.stdout.aggregate@ == joined(s.stdout.received@),
        s.stderr.aggregate@ == joined(s.stderr.received@),
        r matches Ok(o) ==> o.stdout@ == utf8_lossy(joined(s.stdout.received@)) && o.stderr@
            == utf8_lossy(joined(s.stderr.received@)),
        r matches Err(ExecError::StdErrProduced { stderr: e }) ==> e@ == utf8_lossy(
            joined(s.stderr.received@),
        ),
        r matches Err(ExecError::NonZeroExit { stderr: e, .. }) ==> e@ == utf8_lossy(
            joined(s.stderr.received@),
        ),
{
}

} // verus!
