//! Jobs: their status words, their bounded output and how callers see them.
use crate::lines::{join, join_from, lines_of, split_lines};
use crate::shell_client::protocol::{
    JobInfoModel, JobResultModel, ShellAgentJobResult, ShellAgentShellJobResult, ShellJobInfo,
    ShellResultModel,
};
use crate::shell_client::state::{JobModel, ShellJobRecord};
use crate::text::{
    byte_len, chars_of, concat2, opt_clone, opt_text, str_byte_len, str_eq, str_trim, string_of,
    texts, trim,
};
use vstd::prelude::*;
use vstd::string::*;
use vstd::utf8::*;

verus! {

/// How many bytes of each output stream are kept.
pub const MAX_OUTPUT_BYTES: usize = 256 * 1024;

/// A client that was not seen for longer than this is not online.
pub const CLIENT_ONLINE_WINDOW_SECS: i64 = 60;

/// How many characters of a command are shown.
pub const MAX_PREVIEW: usize = 120;

// ---------------------------------------------------------------------------
// Time
// ---------------------------------------------------------------------------

/// `a - b`, or the nearest `i64` where the difference is none.
pub open spec fn seconds_between(a: i64, b: i64) -> i64 {
    if a - b > i64::MAX {
        i64::MAX
    } else if a - b < i64::MIN {
        i64::MIN
    } else {
        (a - b) as i64
    }
}

/// `a - b`, or the nearest `i64` where the difference is none.
pub fn seconds_since(a: i64, b: i64) -> (r: i64)
    ensures
        r == seconds_between(a, b),
{
    if b < 0 && a > i64::MAX + b {
        i64::MAX
    } else if b > 0 && a < i64::MIN + b {
        i64::MIN
    } else {
        a - b
    }
}

/// A time just outside the online window that ends at `now`.
pub fn offline_last_seen(now: i64) -> (r: i64)
    ensures
        r == seconds_between(now, 61),
{
    seconds_since(now, CLIENT_ONLINE_WINDOW_SECS + 1)
}

/// `chrono::Utc::now().timestamp()`: the seconds since the epoch by the clock of
/// the machine. Nothing is claimed of the result.
#[verifier::external_body]
pub(crate) fn now_ts() -> (r: i64) {
    chrono::Utc::now().timestamp()
}

// ---------------------------------------------------------------------------
// Previews and bounded output
// ---------------------------------------------------------------------------

/// The first line of `command`, without the white space around it.
pub open spec fn first_line(command: Seq<char>) -> Seq<char> {
    if lines_of(command).len() == 0 {
        seq![]
    } else {
        trim(lines_of(command)[0])
    }
}

/// The first line of `command`, cut to a number of characters.
pub open spec fn preview(command: Seq<char>) -> Seq<char> {
    let line = first_line(command);
    if line.len() <= MAX_PREVIEW {
        line
    } else {
        line.take(MAX_PREVIEW as int) + "…"@
    }
}

/// The first line of a command, cut to a number of characters.
pub fn command_preview(command: &str) -> (r: String)
    ensures
        r@ == preview(command@),
{
    let lines = split_lines(command);
    if lines.len() == 0 {
        assert(texts(lines@).len() == 0);
        let r = String::new();
        assert(r@ =~= preview(command@));
        return r;
    }
    assert(texts(lines@)[0] == lines@[0]@);
    let line = str_trim(lines[0].as_str());
    if line.unicode_len() <= MAX_PREVIEW {
        line.to_owned()
    } else {
        assert(line@.subrange(0, MAX_PREVIEW as int) =~= line@.take(MAX_PREVIEW as int));
        concat2(line.substring_char(0, MAX_PREVIEW), "…")
    }
}

/// The longest end of `s` that is at most `max` bytes long.
pub open spec fn fitting_tail(s: Seq<char>, max: nat) -> Seq<char>
    decreases s.len(),
{
    if s.len() == 0 || byte_len(s) <= max {
        s
    } else {
        fitting_tail(s.skip(1), max)
    }
}

/// `s`, or where it is too long a notice and its longest end that is not.
pub open spec fn bounded_output(s: Seq<char>) -> Seq<char> {
    if byte_len(s) <= MAX_OUTPUT_BYTES {
        s
    } else {
        "[output truncated to last 262144 bytes]\n"@ + fitting_tail(s, MAX_OUTPUT_BYTES as nat)
    }
}

/// The output that is kept of an optional output.
pub open spec fn bounded_option(s: Option<Seq<char>>) -> Option<Seq<char>> {
    match s {
        Some(s) => Some(bounded_output(s)),
        None => None,
    }
}

/// The number of bytes of one character.
pub open spec fn char_bytes(c: char) -> nat {
    encode_scalar(c as u32).len()
}

pub fn char_width(c: char) -> (r: usize)
    ensures
        r == char_bytes(c),
        1 <= r <= 4,
{
    let n = c as u32;
    if n <= 0x7f {
        1
    } else if n <= 0x7ff {
        2
    } else if n <= 0xffff {
        3
    } else {
        4
    }
}

pub proof fn lemma_byte_len_first(s: Seq<char>)
    requires
        s.len() > 0,
    ensures
        byte_len(s) == char_bytes(s[0]) + byte_len(s.skip(1)),
{
    assert(s.drop_first() =~= s.skip(1));
}

pub proof fn lemma_byte_len_add(a: Seq<char>, b: Seq<char>)
    ensures
        byte_len(a + b) == byte_len(a) + byte_len(b),
    decreases a.len(),
{
    if a.len() == 0 {
        assert(a + b =~= b);
    } else {
        lemma_byte_len_first(a);
        lemma_byte_len_first(a + b);
        assert((a + b).skip(1) =~= a.skip(1) + b);
        lemma_byte_len_add(a.skip(1), b);
    }
}

proof fn lemma_fitting_tail_is(s: Seq<char>, max: nat, k: int)
    requires
        0 <= k <= s.len(),
        byte_len(s.skip(k)) <= max,
        k > 0 ==> byte_len(s.skip(k - 1)) > max,
    ensures
        fitting_tail(s, max) == s.skip(k),
    decreases s.len(),
{
    assert(s.skip(0) =~= s);
    if k > 0 {
        lemma_byte_len_add(s.take(k - 1), s.skip(k - 1));
        assert(s.take(k - 1) + s.skip(k - 1) =~= s);
        let t = s.skip(1);
        assert(t.skip(k - 1) =~= s.skip(k));
        if k > 1 {
            assert(t.skip(k - 2) =~= s.skip(k - 1));
        }
        lemma_fitting_tail_is(t, max, k - 1);
    }
}

/// The tail that is kept fits, and it is an end of the text.
pub proof fn law_fitting_tail(s: Seq<char>, max: nat)
    ensures
        byte_len(fitting_tail(s, max)) <= max,
        fitting_tail(s, max).is_suffix_of(s),
    decreases s.len(),
{
    if s.len() > 0 && byte_len(s) > max {
        law_fitting_tail(s.skip(1), max);
        let t = fitting_tail(s.skip(1), max);
        assert(t.len() <= s.skip(1).len());
        assert(t =~= s.skip(1).skip(s.len() - 1 - t.len()));
        assert(s.skip(1).skip(s.len() - 1 - t.len()) =~= s.skip(s.len() - t.len()));
    } else {
        assert(s.skip(0) =~= s);
    }
}

/// What is kept of an output is bounded: the limit and the length of the notice.
pub proof fn law_bounded_output(s: Seq<char>)
    ensures
        byte_len(bounded_output(s)) <= MAX_OUTPUT_BYTES + byte_len(
            "[output truncated to last 262144 bytes]\n"@,
        ),
{
    law_fitting_tail(s, MAX_OUTPUT_BYTES as nat);
    lemma_byte_len_add(
        "[output truncated to last 262144 bytes]\n"@,
        fitting_tail(s, MAX_OUTPUT_BYTES as nat),
    );
}

fn keep_tail(s: &str) -> (r: String)
    ensures
        r@ == fitting_tail(s@, MAX_OUTPUT_BYTES as nat),
{
    let cs = chars_of(s);
    let mut k: usize = cs.len();
    let mut total: usize = 0;
    assert(s@.skip(k as int) =~= seq![]);
    while k > 0
        invariant
            k <= cs@.len(),
            cs@ == s@,
            total == byte_len(s@.skip(k as int)),
            total <= MAX_OUTPUT_BYTES,
        decreases k,
    {
        let w = char_width(cs[k - 1]);
        proof {
            lemma_byte_len_first(s@.skip(k - 1));
            assert(s@.skip(k - 1).skip(1) =~= s@.skip(k as int));
        }
        if total + w > MAX_OUTPUT_BYTES {
            proof {
                lemma_fitting_tail_is(s@, MAX_OUTPUT_BYTES as nat, k as int);
                assert(s@.skip(k as int) =~= cs@.subrange(k as int, cs@.len() as int));
            }
            return string_of(&cs, k, cs.len());
        }
        total = total + w;
        k = k - 1;
    }
    proof {
        lemma_fitting_tail_is(s@, MAX_OUTPUT_BYTES as nat, 0);
        assert(s@.skip(0) =~= s@);
    }
    s.to_owned()
}

fn bound_output(s: String) -> (r: String)
    ensures
        r@ == bounded_output(s@),
{
    if str_byte_len(s.as_str()) <= MAX_OUTPUT_BYTES {
        s
    } else {
        let tail = keep_tail(s.as_str());
        concat2("[output truncated to last 262144 bytes]\n", tail.as_str())
    }
}

/// Bounds an optional output.
pub fn truncate_output(value: Option<String>) -> (r: Option<String>)
    ensures
        opt_text(r) == bounded_option(opt_text(value)),
{
    match value {
        Some(s) => Some(bound_output(s)),
        None => None,
    }
}

/// What `target` holds after `chunk` was added to it.
pub open spec fn appended(target: Option<Seq<char>>, chunk: Option<Seq<char>>) -> Option<
    Seq<char>,
> {
    match chunk {
        Some(c) => Some(
            bounded_output(
                match target {
                    Some(t) => t + c,
                    None => c,
                },
            ),
        ),
        None => target,
    }
}

/// Adds a chunk to an output and bounds what comes of it.
pub fn append_limited(target: &mut Option<String>, chunk: Option<String>)
    ensures
        opt_text(*final(target)) == appended(opt_text(*old(target)), opt_text(chunk)),
{
    let Some(chunk) = chunk else {
        return;
    };
    let joined = match target {
        Some(t) => concat2(t.as_str(), chunk.as_str()),
        None => chunk,
    };
    *target = Some(bound_output(joined));
}

/// What `target` holds after `value` took its place.
pub open spec fn replaced(target: Option<Seq<char>>, value: Option<Seq<char>>) -> Option<
    Seq<char>,
> {
    match value {
        Some(v) => Some(bounded_output(v)),
        None => target,
    }
}

/// Puts a value in the place of an output and bounds it.
pub fn replace_limited(target: &mut Option<String>, value: Option<String>)
    ensures
        opt_text(*final(target)) == replaced(opt_text(*old(target)), opt_text(value)),
{
    let Some(value) = value else {
        return;
    };
    *target = Some(bound_output(value));
}

// ---------------------------------------------------------------------------
// Log lines
// ---------------------------------------------------------------------------

/// The lines joined again, each with its line end.
pub open spec fn lines_text(lines: Seq<Seq<char>>) -> Seq<char> {
    let text = join(lines, "\n"@);
    if text.len() == 0 {
        text
    } else {
        text + "\n"@
    }
}

/// The position of the first line that a log request asks for.
pub open spec fn first_selected(count: nat, since_line: Option<usize>, tail_lines: Option<
    usize,
>) -> int {
    if tail_lines is Some && tail_lines->0 > 0 {
        if tail_lines->0 >= count {
            0
        } else {
            count - tail_lines->0
        }
    } else {
        let line = match since_line {
            Some(n) => n as int,
            None => 1,
        };
        if line <= 1 {
            0
        } else if line - 1 > count {
            count as int
        } else {
            line - 1
        }
    }
}

/// The number of the line after `count` lines.
pub open spec fn next_line(count: nat) -> usize {
    if count < usize::MAX {
        (count + 1) as usize
    } else {
        usize::MAX
    }
}

/// The part of a log that a request asks for, and the line to go on from.
pub open spec fn selected(value: Option<Seq<char>>, since_line: Option<usize>, tail_lines: Option<
    usize,
>) -> (Option<Seq<char>>, usize) {
    match value {
        None => (
            Some(seq![]),
            match since_line {
                Some(n) => n,
                None => 1,
            },
        ),
        Some(v) => {
            let lines = lines_of(v);
            (
                Some(lines_text(lines.skip(first_selected(lines.len(), since_line, tail_lines)))),
                next_line(lines.len()),
            )
        },
    }
}

/// The part of a log that a request asks for, and the line to go on from.
pub fn select_lines(
    value: Option<&String>,
    since_line: Option<usize>,
    tail_lines: Option<usize>,
) -> (r: (Option<String>, usize))
    ensures
        (opt_text(r.0), r.1) == selected(
            match value {
                Some(v) => Some(v@),
                None => None,
            },
            since_line,
            tail_lines,
        ),
{
    let Some(value) = value else {
        let empty = String::new();
        assert(empty@ =~= seq![]);
        let line: usize = match since_line {
            Some(n) => n,
            None => 1,
        };
        return (Some(empty), line);
    };
    let lines = split_lines(value.as_str());
    let count = lines.len();
    assert(texts(lines@).len() == count);
    let tail: usize = match tail_lines {
        Some(n) => n,
        None => 0,
    };
    let start: usize = if tail > 0 {
        if tail >= count {
            0
        } else {
            count - tail
        }
    } else {
        let line: usize = match since_line {
            Some(n) => n,
            None => 1,
        };
        if line <= 1 {
            0
        } else if line - 1 > count {
            count
        } else {
            line - 1
        }
    };
    let mut text = join_from(&lines, start, "\n");
    if !text.as_str().is_empty() {
        text.append("\n");
    }
    let next: usize = if count < usize::MAX {
        count + 1
    } else {
        count
    };
    (Some(text), next)
}

// ---------------------------------------------------------------------------
// Status words and views
// ---------------------------------------------------------------------------

/// The status words of a job that has ended.
pub open spec fn is_final(status: Seq<char>) -> bool {
    ||| status == "completed"@
    ||| status == "failed"@
    ||| status == "stopped"@
    ||| status == "timeout"@
    ||| status == "lost"@
}

/// The status words of a job that an agent has.
pub open spec fn is_with_agent(status: Seq<char>) -> bool {
    status == "agent_queued"@ || status == "running"@ || status == "stop_requested"@
}

/// Whether a job with this status has ended.
pub fn is_final_job_status(status: &str) -> (r: bool)
    ensures
        r == is_final(status@),
{
    str_eq(status, "completed") || str_eq(status, "failed") || str_eq(status, "stopped") || str_eq(
        status,
        "timeout",
    ) || str_eq(status, "lost")
}

/// Whether an agent has a job with this status.
pub fn is_agent_job_status(status: &str) -> (r: bool)
    ensures
        r == is_with_agent(status@),
{
    str_eq(status, "agent_queued") || str_eq(status, "running") || str_eq(status, "stop_requested")
}

/// A number of seconds as an unsigned number; a negative one wraps around.
pub open spec fn unsigned_seconds(n: i64) -> u64 {
    if n >= 0 {
        n as u64
    } else {
        (n + 0x1_0000_0000_0000_0000) as u64
    }
}

fn seconds_as_u64(n: i64) -> (r: u64)
    ensures
        r == unsigned_seconds(n),
{
    if n >= 0 {
        n as u64
    } else {
        u64::MAX - ((-(n + 1)) as u64)
    }
}

/// For how long a job ran, or runs at `now`.
pub open spec fn elapsed(job: JobModel, now: i64) -> Option<u64> {
    match job.duration_ms {
        Some(ms) => Some((ms / 1000) as u64),
        None => match job.started_at {
            Some(started) => Some(
                unsigned_seconds(
                    seconds_between(
                        match job.ended_at {
                            Some(ended) => ended,
                            None => now,
                        },
                        started,
                    ),
                ),
            ),
            None => None,
        },
    }
}

/// What callers see of a job at `now`.
pub open spec fn job_info(job: JobModel, now: i64) -> JobInfoModel {
    JobInfoModel {
        job_id: job.job_id,
        request_id: job.request_id,
        client_id: job.client_id,
        kind: job.kind,
        project_id: job.project_id,
        cwd: job.cwd,
        command_preview: job.command_preview,
        status: job.status,
        created_at: job.created_at,
        started_at: job.started_at,
        ended_at: job.ended_at,
        exit_code: job.exit_code,
        duration_ms: job.duration_ms,
        elapsed_secs: elapsed(job, now),
        error: job.error,
        codex: job.codex,
        result: if is_final(job.status) {
            Some(
                JobResultModel {
                    shell: Some(
                        ShellResultModel {
                            cwd: job.cwd,
                            command_preview: job.command_preview,
                            exit_code: job.exit_code,
                            duration_ms: job.duration_ms,
                            error: job.error,
                        },
                    ),
                },
            )
        } else {
            None
        },
    }
}

/// What callers see of a job at `now`.
pub fn job_view_at(job: &ShellJobRecord, now: i64) -> (r: ShellJobInfo)
    ensures
        r@ == job_info(job@, now),
{
    let elapsed_secs = match job.duration_ms {
        Some(ms) => Some(ms / 1000),
        None => match job.started_at {
            Some(started) => {
                let end: i64 = match job.ended_at {
                    Some(ended) => ended,
                    None => now,
                };
                Some(seconds_as_u64(seconds_since(end, started)))
            },
            None => None,
        },
    };
    let result = if is_final_job_status(job.status.as_str()) {
        Some(
            ShellAgentJobResult {
                shell: Some(
                    ShellAgentShellJobResult {
                        cwd: opt_clone(&job.cwd),
                        command_preview: job.command_preview.clone(),
                        exit_code: job.exit_code,
                        duration_ms: job.duration_ms,
                        error: opt_clone(&job.error),
                    },
                ),
            },
        )
    } else {
        None
    };
    ShellJobInfo {
        job_id: job.job_id.clone(),
        request_id: opt_clone(&job.request_id),
        client_id: job.client_id.clone(),
        kind: job.kind.clone(),
        project_id: opt_clone(&job.project_id),
        cwd: opt_clone(&job.cwd),
        command_preview: job.command_preview.clone(),
        status: job.status.clone(),
        created_at: job.created_at,
        started_at: job.started_at,
        ended_at: job.ended_at,
        exit_code: job.exit_code,
        duration_ms: job.duration_ms,
        elapsed_secs,
        error: opt_clone(&job.error),
        codex: match &job.codex {
            Some(c) => Some(c.copy()),
            None => None,
        },
        result,
    }
}

/// What callers see of a job now.
pub fn job_view(job: &ShellJobRecord) -> (r: ShellJobInfo)
    ensures
        exists|now: i64| r@ == #[trigger] job_info(job@, now),
{
    job_view_at(job, now_ts())
}

} // verus!
