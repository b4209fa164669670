//! A container's post-mortem: what `docker inspect` and `docker logs` tell about it.

use vstd::prelude::*;
use vstd::string::*;

use crate::docker::error::DockerError;
use crate::text::{
    bool_string, bool_text, chars_of, decimal, i64_text, parse_signed, parse_signed_text,
    parse_unsigned, parse_unsigned_text, same_text, signed_decimal, split_chars, split_on,
    trim_end_in, trim_end_in_bound, u64_text,
};

verus! {

/// A container's post-mortem: why it is not doing what the caller expected.
///
/// Returned as data rather than printed, so that a test can assert on it and a caller that
/// logs elsewhere is not forced to accept standard output.
#[derive(Debug, Clone, Eq, PartialEq, Hash)]
pub struct ContainerDiagnostics {
    status: String,
    running: bool,
    restart_count: u32,
    oom_killed: bool,
    exit_code: i32,
    started_at: String,
    finished_at: String,
    logs: Option<String>,
}

/// The values a [`ContainerDiagnostics`] holds.
pub struct ContainerDiagnosticsView {
    pub status: Seq<char>,
    pub running: bool,
    pub restart_count: u32,
    pub oom_killed: bool,
    pub exit_code: i32,
    pub started_at: Seq<char>,
    pub finished_at: Seq<char>,
    pub logs: Option<Seq<char>>,
}

/// The view of an optional owned string.
pub open spec fn opt_string(o: Option<String>) -> Option<Seq<char>> {
    match o {
        Some(s) => Some(s@),
        None => None,
    }
}

impl View for ContainerDiagnostics {
    type V = ContainerDiagnosticsView;

    closed spec fn view(&self) -> ContainerDiagnosticsView {
        ContainerDiagnosticsView {
            status: self.status@,
            running: self.running,
            restart_count: self.restart_count,
            oom_killed: self.oom_killed,
            exit_code: self.exit_code,
            started_at: self.started_at@,
            finished_at: self.finished_at@,
            logs: opt_string(self.logs),
        }
    }
}

/// The exit code of a process killed by SIGKILL: `128 + 9`.
pub open spec fn sigkill_exit_code() -> i32 {
    137
}

/// Whether a post-mortem looks like an out-of-memory kill: the OOM flag, or the SIGKILL exit
/// code that the flag sometimes fails to accompany.
pub open spec fn looks_oom(d: ContainerDiagnosticsView) -> bool {
    d.oom_killed || d.exit_code == sigkill_exit_code()
}

/// What the post-mortem says in place of logs that could not be read.
pub open spec fn logs_unavailable() -> Seq<char> {
    "(logs unavailable: the container no longer exists)"@
}

/// How a post-mortem displays: one line of state, then the log tail.
pub open spec fn diagnostics_text(d: ContainerDiagnosticsView) -> Seq<char> {
    "status="@ + d.status + " running="@ + bool_text(d.running) + " restarts="@ + decimal(
        d.restart_count as nat,
    ) + " oom="@ + bool_text(d.oom_killed) + " exit="@ + signed_decimal(d.exit_code as int)
        + " started="@ + d.started_at + " finished="@ + d.finished_at + "\n"@ + match d.logs {
        Some(l) => l,
        None => logs_unavailable(),
    }
}

impl ContainerDiagnostics {
    /// A post-mortem with the given values.
    ///
    /// * `status` - Docker's own state word.
    /// * `restart_count` - How many times the container was restarted.
    /// * `oom_killed` - Whether the kernel OOM killer stopped the container.
    /// * `logs` - The captured log tail, if it could be read.
    pub fn new(
        status: String,
        running: bool,
        restart_count: u32,
        oom_killed: bool,
        exit_code: i32,
        started_at: String,
        finished_at: String,
        logs: Option<String>,
    ) -> (d: Self)
        ensures
            d@ == (ContainerDiagnosticsView {
                status: status@,
                running,
                restart_count,
                oom_killed,
                exit_code,
                started_at: started_at@,
                finished_at: finished_at@,
                logs: opt_string(logs),
            }),
    {
        ContainerDiagnostics {
            status,
            running,
            restart_count,
            oom_killed,
            exit_code,
            started_at,
            finished_at,
            logs,
        }
    }

    /// Docker's own state word: `running`, `exited`, `removing`, ...
    pub fn status(&self) -> (r: &str)
        ensures
            r@ == self@.status,
    {
        self.status.as_str()
    }

    pub fn running(&self) -> (r: bool)
        ensures
            r == self@.running,
    {
        self.running
    }

    /// How many times the container was restarted.
    pub fn restart_count(&self) -> (r: u32)
        ensures
            r == self@.restart_count,
    {
        self.restart_count
    }

    /// Whether the kernel OOM killer stopped this container.
    pub fn oom_killed(&self) -> (r: bool)
        ensures
            r == self@.oom_killed,
    {
        self.oom_killed
    }

    /// The process exit code.
    pub fn exit_code(&self) -> (r: i32)
        ensures
            r == self@.exit_code,
    {
        self.exit_code
    }

    pub fn started_at(&self) -> (r: &str)
        ensures
            r@ == self@.started_at,
    {
        self.started_at.as_str()
    }

    pub fn finished_at(&self) -> (r: &str)
        ensures
            r@ == self@.finished_at,
    {
        self.finished_at.as_str()
    }

    /// The captured log tail, or `None` when docker could not produce it.
    pub fn logs(&self) -> (r: Option<&str>)
        ensures
            match r {
                Some(l) => self@.logs == Some(l@),
                None => self@.logs is None,
            },
    {
        match &self.logs {
            Some(l) => Some(l.as_str()),
            None => None,
        }
    }

    /// Whether this looks like an out-of-memory kill.
    ///
    /// Both signals are checked because either alone is ambiguous: `OOMKilled` has been
    /// unreliable on some storage and runtime combinations, and `137` is also what a plain
    /// `docker kill` produces.
    pub fn looks_oom_killed(&self) -> (r: bool)
        ensures
            r == looks_oom(self@),
    {
        self.oom_killed || self.exit_code == 137
    }

    /// The post-mortem as it displays.
    pub fn to_string(&self) -> (s: String)
        ensures
            s@ == diagnostics_text(self@),
    {
        let mut s = String::from_str("status=");
        s.append(self.status.as_str());
        s.append(" running=");
        let running = bool_string(self.running);
        s.append(running.as_str());
        s.append(" restarts=");
        let restarts = u64_text(self.restart_count as u64);
        s.append(restarts.as_str());
        s.append(" oom=");
        let oom = bool_string(self.oom_killed);
        s.append(oom.as_str());
        s.append(" exit=");
        let exit = i64_text(self.exit_code as i64);
        s.append(exit.as_str());
        s.append(" started=");
        s.append(self.started_at.as_str());
        s.append(" finished=");
        s.append(self.finished_at.as_str());
        s.append("\n");
        match &self.logs {
            Some(l) => s.append(l.as_str()),
            None => s.append("(logs unavailable: the container no longer exists)"),
        }
        s
    }
}

/// The `docker inspect` format behind a post-mortem: seven fields separated by tabs.
pub const INSPECT_FORMAT: &'static str = "{{.State.Status}}\t{{.State.Running}}\t{{.RestartCount}}\t{{.State.OOMKilled}}\t{{.State.ExitCode}}\t{{.State.StartedAt}}\t{{.State.FinishedAt}}";

/// The fields of an inspect line: the line without its trailing line breaks, split at tabs.
pub open spec fn inspect_fields(line: Seq<char>) -> Seq<Seq<char>> {
    split_on(trim_end_in(line, seq!['\n', '\r']), '\t')
}

/// The message for an inspect line with too few fields.
pub open spec fn short_inspect_message(found: nat) -> Seq<char> {
    "docker inspect returned "@ + decimal(found) + " field(s), wanted 7"@
}

/// The post-mortem that the fields of an inspect line describe. Only the literal `true`
/// counts as true, and a number that does not parse counts as 0: a partial post-mortem beats
/// none, because this runs where something has already gone wrong.
pub open spec fn diagnostics_from(fields: Seq<Seq<char>>, logs: Option<Seq<char>>) -> ContainerDiagnosticsView {
    ContainerDiagnosticsView {
        status: fields[0],
        running: fields[1] == "true"@,
        restart_count: match parse_unsigned(fields[2], u32::MAX as nat) {
            Some(n) => n as u32,
            None => 0,
        },
        oom_killed: fields[3] == "true"@,
        exit_code: match parse_signed(fields[4], 0x8000_0000, 0x7fff_ffff) {
            Some(n) => n as i32,
            None => 0,
        },
        started_at: fields[5],
        finished_at: fields[6],
        logs,
    }
}

/// Parses one line of `docker inspect` output in [`INSPECT_FORMAT`] into a post-mortem.
///
/// Trailing line breaks are dropped, since docker terminates its output with one. Extra
/// trailing fields are tolerated, so that adding a field to the format cannot break an
/// older parser; fewer than seven fields are an error rather than invented values.
pub fn parse_inspect_line(line: &str, logs: Option<String>) -> (r: Result<ContainerDiagnostics, DockerError>)
    ensures
        match r {
            Ok(d) => inspect_fields(line@).len() >= 7 && d@ == diagnostics_from(
                inspect_fields(line@),
                opt_string(logs),
            ),
            Err(e) => inspect_fields(line@).len() < 7 && e.0@ == short_inspect_message(
                inspect_fields(line@).len(),
            ),
        },
{
    let v = chars_of(line);
    let breaks: [char; 2] = ['\n', '\r'];
    let hi = trim_end_in_bound(&v, v.len(), &breaks);
    assert(breaks@ =~= seq!['\n', '\r']);
    assert(v@.subrange(0, v.len() as int) =~= v@);
    let fields = split_chars(line, &v, hi, '\t');
    let n = fields.len();
    if n < 7 {
        let mut m = String::from_str("docker inspect returned ");
        let count = u64_text(n as u64);
        m.append(count.as_str());
        m.append(" field(s), wanted 7");
        return Err(DockerError(m));
    }
    let ghost fv = fields@.map_values(|t: String| t@);
    assert(fv[1] == fields@[1]@ && fv[2] == fields@[2]@ && fv[3] == fields@[3]@);
    assert(fv[0] == fields@[0]@ && fv[4] == fields@[4]@ && fv[5] == fields@[5]@);
    assert(fv[6] == fields@[6]@);
    let running = same_text(fields[1].as_str(), "true");
    let oom = same_text(fields[3].as_str(), "true");
    let restarts: u32 = match parse_unsigned_text(fields[2].as_str(), 0xffff_ffff) {
        Some(n) => n as u32,
        None => 0,
    };
    let exit: i32 = match parse_signed_text(fields[4].as_str(), 0x8000_0000, 0x7fff_ffff) {
        Some(n) => n as i32,
        None => 0,
    };
    Ok(
        ContainerDiagnostics {
            status: fields[0].clone(),
            running,
            restart_count: restarts,
            oom_killed: oom,
            exit_code: exit,
            started_at: fields[5].clone(),
            finished_at: fields[6].clone(),
            logs,
        },
    )
}

/// A log tail made of both captured streams: each without its trailing newlines, joined by
/// one newline when both hold something.
pub open spec fn merged_logs(stdout: Seq<char>, stderr: Seq<char>) -> Seq<char> {
    let out = trim_end_in(stdout, seq!['\n']);
    let err = trim_end_in(stderr, seq!['\n']);
    if out.len() == 0 {
        err
    } else if err.len() == 0 {
        out
    } else {
        out + "\n"@ + err
    }
}

/// Joins the captured stdout and stderr tails of `docker logs` into one.
///
/// Both streams are kept, since `docker logs` keeps them apart and services built on glog
/// write everything to stderr; the newline between them keeps the last line of stdout from
/// gluing onto the first line of stderr.
pub fn merge_log_tail(stdout: &str, stderr: &str) -> (s: String)
    ensures
        s@ == merged_logs(stdout@, stderr@),
{
    let linefeed: [char; 1] = ['\n'];
    assert(linefeed@ =~= seq!['\n']);
    let o = chars_of(stdout);
    let e = chars_of(stderr);
    let ob = trim_end_in_bound(&o, o.len(), &linefeed);
    let eb = trim_end_in_bound(&e, e.len(), &linefeed);
    assert(o@.subrange(0, o.len() as int) =~= o@);
    assert(e@.subrange(0, e.len() as int) =~= e@);
    let out = stdout.substring_char(0, ob);
    let err = stderr.substring_char(0, eb);
    if ob == 0 {
        String::from_str(err)
    } else if eb == 0 {
        String::from_str(out)
    } else {
        let mut s = String::from_str(out);
        s.append("\n");
        s.append(err);
        s
    }
}

} // verus!
