//! Managed runtime process lifecycle, as far as it is decisions: the
//! status an instance is in, how a liveness poll moves it, the bounded tail
//! of its log lines, and what a spawn is asked to run.
use vstd::prelude::*;

use crate::text::{concat, decimal, push_decimal};

verus! {

/// How many log lines of a managed runtime are kept.
pub const LOG_TAIL_CAPACITY: usize = 200;

/// Lifecycle state of a managed runtime process.
#[derive(Debug, Clone, Copy, PartialEq, Eq, Structural)]
pub enum RuntimeStatus {
    Starting,
    Running,
    Degraded,
    Crashed,
    Stopping,
    Stopped,
}

/// What a non-blocking check of the child process found.
#[derive(Debug, Clone, Copy, PartialEq, Eq, Structural)]
pub enum ExitPoll {
    /// The process is still alive.
    StillRunning,
    /// The process has exited.
    Exited,
    /// The check itself failed.
    PollFailed,
}

/// The status after a liveness poll: a running (or degraded) instance
/// whose process exited, or could not be polled, has crashed; any other
/// status is kept.
pub open spec fn spec_observed_status(current: RuntimeStatus, poll: ExitPoll) -> RuntimeStatus {
    if (current == RuntimeStatus::Running || current == RuntimeStatus::Degraded) && poll
        != ExitPoll::StillRunning {
        RuntimeStatus::Crashed
    } else {
        current
    }
}

/// Applies a liveness poll to an instance's status (see
/// [`spec_observed_status`]).
pub fn observed_status(current: RuntimeStatus, poll: ExitPoll) -> (r: RuntimeStatus)
    ensures
        r == spec_observed_status(current, poll),
{
    match current {
        RuntimeStatus::Running | RuntimeStatus::Degraded => match poll {
            ExitPoll::StillRunning => current,
            _ => RuntimeStatus::Crashed,
        },
        _ => current,
    }
}

/// What to launch and how to confirm it is healthy.
#[derive(Debug)]
pub struct SpawnSpec {
    pub program: String,
    pub args: Vec<String>,
    pub env: Vec<(String, String)>,
    /// Working directory of the process; `None` inherits the control
    /// plane's own.
    pub cwd: Option<String>,
    /// Path polled on the allocated port to confirm readiness.
    pub health_path: String,
    /// Auth token this instance was started with.
    pub auth_token: String,
}

/// `http://127.0.0.1:<port><health_path>`: where readiness is polled.
pub fn health_url(port: u16, health_path: &str) -> (r: String)
    ensures
        r@ == "http://127.0.0.1:"@ + decimal(port as nat) + health_path@,
{
    let mut r = crate::text::owned("http://127.0.0.1:");
    push_decimal(&mut r, port as u64);
    r.append(health_path);
    r
}

/// The last lines a managed runtime wrote, oldest first, at most
/// [`LOG_TAIL_CAPACITY`] of them.
pub struct LogTail {
    lines: Vec<String>,
}

pub open spec fn lines_view(v: Seq<String>) -> Seq<Seq<char>> {
    v.map_values(|s: String| s@)
}

/// The last `n` elements of `s` (all of them when it has fewer).
pub open spec fn last_n<T>(s: Seq<T>, n: nat) -> Seq<T> {
    if s.len() <= n {
        s
    } else {
        s.skip(s.len() - n)
    }
}

impl View for LogTail {
    type V = Seq<Seq<char>>;

    closed spec fn view(&self) -> Seq<Seq<char>> {
        lines_view(self.lines@)
    }
}

impl LogTail {
    pub closed spec fn wf(&self) -> bool {
        self.lines@.len() <= LOG_TAIL_CAPACITY
    }

    /// An empty tail.
    pub fn new() -> (r: LogTail)
        ensures
            r.wf(),
            r@ == Seq::<Seq<char>>::empty(),
    {
        let r = LogTail { lines: Vec::new() };
        assert(r@ =~= Seq::<Seq<char>>::empty());
        r
    }

    /// Records one line; once full, the oldest line is dropped.
    pub fn push(&mut self, line: String)
        requires
            old(self).wf(),
        ensures
            final(self).wf(),
            final(self)@ == last_n(old(self)@.push(line@), LOG_TAIL_CAPACITY as nat),
    {
        let ghost before = self.lines@;
        if self.lines.len() == LOG_TAIL_CAPACITY {
            self.lines.remove(0);
        }
        self.lines.push(line);
        proof {
            let full = lines_view(before).push(line@);
            if before.len() == LOG_TAIL_CAPACITY {
                assert(lines_view(self.lines@) =~= full.skip(1));
            } else {
                assert(lines_view(self.lines@) =~= full);
            }
        }
    }

    /// The last `n` recorded lines, oldest first.
    pub fn tail(&self, n: usize) -> (r: Vec<String>)
        ensures
            lines_view(r@) == last_n(self@, n as nat),
    {
        let len = self.lines.len();
        let start: usize = if len <= n {
            0
        } else {
            len - n
        };
        let mut r: Vec<String> = Vec::new();
        let mut i: usize = start;
        while i < len
            invariant
                len == self.lines@.len(),
                start <= i <= len,
                lines_view(r@) == lines_view(self.lines@).subrange(start as int, i as int),
            decreases len - i,
        {
            let line = self.lines[i].clone();
            assert(line@ == self.lines@[i as int]@);
            let ghost prev = r@;
            r.push(line);
            assert(r@ == prev.push(line));
            assert(lines_view(r@) =~= lines_view(prev).push(line@));
            assert(lines_view(r@) =~= lines_view(self.lines@).subrange(start as int, i + 1));
            i += 1;
        }
        assert(lines_view(self.lines@).subrange(start as int, len as int) =~= last_n(
            self@,
            n as nat,
        ));
        r
    }

    /// Every recorded line, joined with newlines.
    pub fn joined(&self) -> (r: String)
        ensures
            r@ == join_lines(self@),
    {
        let mut r = String::new();
        let mut i: usize = 0;
        while i < self.lines.len()
            invariant
                i <= self.lines@.len(),
                r@ == join_lines(lines_view(self.lines@).take(i as int)),
            decreases self.lines.len() - i,
        {
            let ghost prefix = lines_view(self.lines@).take(i as int);
            if i > 0 {
                r.append("\n");
            }
            r.append(self.lines[i].as_str());
            assert(lines_view(self.lines@).take(i + 1).drop_last() =~= prefix);
            i += 1;
        }
        assert(lines_view(self.lines@).take(self.lines@.len() as int) =~= self@);
        r
    }
}

/// Lines joined with `\n` between consecutive ones.
pub open spec fn join_lines(lines: Seq<Seq<char>>) -> Seq<char>
    decreases lines.len(),
{
    if lines.len() == 0 {
        Seq::empty()
    } else if lines.len() == 1 {
        lines[0]
    } else {
        join_lines(lines.drop_last()) + "\n"@ + lines.last()
    }
}

/// The error text of a runtime that never became healthy: the health
/// failure, then the last captured log lines.
pub fn start_failure_detail(health_error: &str, logs: &LogTail) -> (r: String)
    ensures
        r@ == health_error@ + "; last logs:\n"@ + join_lines(logs@),
{
    let mut r = concat(health_error, "; last logs:\n");
    let joined = logs.joined();
    r.append(joined.as_str());
    r
}

} // verus!
