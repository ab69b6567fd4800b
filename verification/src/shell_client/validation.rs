//! The rules that requests must meet before anything is queued for an agent.
use crate::order::{lemma_less_irreflexive, lemma_less_total, lemma_less_transitive, str_less, text_less};
use crate::shell_client::protocol::{
    ProjectModel, ShellAgentProjectSummary, ShellFileOpRequest, ShellRunRequest,
};
use crate::text::{
    byte_len, char_count, char_is_alphanumeric, char_is_hex_digit, chars_of, concat2,
    contains_char, is_alphanumeric, is_hex_digit, opt_text, str_byte_len, str_eq, str_trim, trim,
    views,
};
use sha2::{Digest, Sha256};
use vstd::prelude::*;

verus! {

pub const MAX_CLIENT_ID_LEN: usize = 80;

pub const MAX_CLIENT_FIELD_LEN: usize = 200;

pub const MAX_AGENT_INSTANCE_ID_LEN: usize = 128;

pub const MAX_COMMAND_LEN: usize = 8_000;

pub const MAX_CWD_LEN: usize = 1_024;

pub const MAX_FILE_PATH_LEN: usize = 2_048;

pub const MAX_FILE_CONTENT_BYTES: usize = 512 * 1024;

pub const MAX_RUN_STDIN_BYTES: usize = 15 * 1024 * 1024;

pub const MAX_SYNC_WAIT_SECS: u64 = 120;

pub const MAX_COMMAND_TIMEOUT_SECS: u64 = 24 * 60 * 60;

// ---------------------------------------------------------------------------
// Ordered rules
// ---------------------------------------------------------------------------

/// The first of two complaints.
pub open spec fn or_else(a: Option<Seq<char>>, b: Option<Seq<char>>) -> Option<Seq<char>> {
    if a is Some {
        a
    } else {
        b
    }
}

/// The complaint `message` where `broken` holds.
pub open spec fn complain(broken: bool, message: Seq<char>) -> Option<Seq<char>> {
    if broken {
        Some(message)
    } else {
        None
    }
}

/// Whether `r` reports exactly `complaint`.
pub open spec fn reports(r: Result<(), String>, complaint: Option<Seq<char>>) -> bool {
    match r {
        Ok(_) => complaint is None,
        Err(e) => complaint == Some(e@),
    }
}

// ---------------------------------------------------------------------------
// Single fields
// ---------------------------------------------------------------------------

/// The characters of an id.
pub open spec fn is_id_char(c: char) -> bool {
    is_alphanumeric(c) || c == '-' || c == '_' || c == '.'
}

/// The characters of an agent instance id.
pub open spec fn is_instance_char(c: char) -> bool {
    is_alphanumeric(c) || c == '-' || c == '_'
}

/// What is wrong with the id `value` of the field `field`.
pub open spec fn id_error(value: Seq<char>, field: Seq<char>) -> Option<Seq<char>> {
    if value.len() == 0 || byte_len(value) > MAX_CLIENT_ID_LEN {
        Some(field + " must be 1..=80 characters"@)
    } else if exists|i: int| 0 <= i < value.len() && !is_id_char(value[i]) {
        Some(field + " may only contain ASCII letters, digits, '-', '_', and '.'"@)
    } else {
        None
    }
}

/// What is wrong with the agent instance id `value`.
pub open spec fn instance_error(value: Seq<char>) -> Option<Seq<char>> {
    if value.len() == 0 {
        Some("agent_instance_id must not be empty"@)
    } else if byte_len(value) > MAX_AGENT_INSTANCE_ID_LEN {
        Some("agent_instance_id is too long; maximum is 128 characters"@)
    } else if exists|i: int| 0 <= i < value.len() && !is_instance_char(value[i]) {
        Some("agent_instance_id may only contain ASCII letters, digits, '-', and '_'"@)
    } else {
        None
    }
}

/// What is wrong with the optional text `value` of the field `field`.
pub open spec fn optional_field_error(value: Option<Seq<char>>, field: Seq<char>) -> Option<
    Seq<char>,
> {
    match value {
        Some(v) => if v.len() > MAX_CLIENT_FIELD_LEN {
            Some(field + " is too long; maximum is 200 characters"@)
        } else if v.contains('\0') {
            Some(field + " cannot contain NUL bytes"@)
        } else {
            None
        },
        None => None,
    }
}

/// What is wrong with the expected checksum `value`.
pub open spec fn sha256_error(value: Option<Seq<char>>) -> Option<Seq<char>> {
    match value {
        Some(v) => complain(
            byte_len(v) != 64 || exists|i: int| 0 <= i < v.len() && !is_hex_digit(v[i]),
            "expected_sha256 must be 64 hex characters"@,
        ),
        None => None,
    }
}

/// What is wrong with the working directory `cwd`.
pub open spec fn cwd_error(cwd: Option<Seq<char>>) -> Option<Seq<char>> {
    match cwd {
        Some(c) => or_else(
            complain(byte_len(c) > MAX_CWD_LEN, "cwd is too long; maximum is 1024 bytes"@),
            complain(c.contains('\0'), "cwd cannot contain NUL bytes"@),
        ),
        None => None,
    }
}

/// An id as it is drawn: the hyphenated form of a random id, in small letters.
pub open spec fn is_drawn_id(id: Seq<char>) -> bool {
    &&& id.len() == 36
    &&& forall|i: int|
        0 <= i < id.len() ==> if i == 8 || i == 13 || i == 18 || i == 23 {
            #[trigger] id[i] == '-'
        } else {
            ('0' <= id[i] && id[i] <= '9') || ('a' <= id[i] && id[i] <= 'f')
        }
    &&& id[14] == '4'
}

/// An id that was drawn, and is a valid id in the field.
pub open spec fn is_new_id(id: Seq<char>, field: Seq<char>) -> bool {
    is_drawn_id(id) && id_error(id, field) is None
}

/// An id that was drawn is a valid id.
pub proof fn lemma_drawn_id_valid(id: Seq<char>, field: Seq<char>)
    requires
        is_drawn_id(id),
    ensures
        is_new_id(id, field),
{
    assert forall|i: int| 0 <= i < id.len() implies is_id_char(#[trigger] id[i]) by {}
    assert(vstd::utf8::is_ascii_chars(id)) by {
        assert forall|i: int| 0 <= i < id.len() implies vstd::utf8::is_ascii_chars(
            seq![#[trigger] id[i]],
        ) by {
            assert(is_id_char(id[i]));
        }
    }
    vstd::utf8::is_ascii_chars_encode_utf8(id);
}

/// Checks an id.
pub fn validate_id(value: &str, field: &str) -> (r: Result<(), String>)
    ensures
        reports(r, id_error(value@, field@)),
{
    if value.is_empty() || str_byte_len(value) > MAX_CLIENT_ID_LEN {
        return Err(concat2(field, " must be 1..=80 characters"));
    }
    let cs = chars_of(value);
    let mut i: usize = 0;
    while i < cs.len()
        invariant
            i <= cs@.len(),
            cs@ == value@,
            value@.len() > 0,
            byte_len(value@) <= MAX_CLIENT_ID_LEN,
            forall|j: int| 0 <= j < i ==> is_id_char(cs@[j]),
        decreases cs@.len() - i,
    {
        let c = cs[i];
        if !(char_is_alphanumeric(c) || c == '-' || c == '_' || c == '.') {
            assert(!is_id_char(value@[i as int]));
            return Err(
                concat2(field, " may only contain ASCII letters, digits, '-', '_', and '.'"),
            );
        }
        i = i + 1;
    }
    Ok(())
}

/// Checks an agent instance id: a short text of letters, digits, dashes and
/// underscores. It is no secret and may appear in logs.
pub fn validate_agent_instance_id(value: &str) -> (r: Result<(), String>)
    ensures
        reports(r, instance_error(value@)),
{
    if value.is_empty() {
        return Err("agent_instance_id must not be empty".to_owned());
    }
    if str_byte_len(value) > MAX_AGENT_INSTANCE_ID_LEN {
        return Err("agent_instance_id is too long; maximum is 128 characters".to_owned());
    }
    let cs = chars_of(value);
    let mut i: usize = 0;
    while i < cs.len()
        invariant
            i <= cs@.len(),
            cs@ == value@,
            value@.len() > 0,
            byte_len(value@) <= MAX_AGENT_INSTANCE_ID_LEN,
            forall|j: int| 0 <= j < i ==> is_instance_char(cs@[j]),
        decreases cs@.len() - i,
    {
        let c = cs[i];
        if !(char_is_alphanumeric(c) || c == '-' || c == '_') {
            assert(!is_instance_char(value@[i as int]));
            return Err(
                "agent_instance_id may only contain ASCII letters, digits, '-', and '_'".to_owned(),
            );
        }
        i = i + 1;
    }
    Ok(())
}

/// Checks an optional descriptive field.
pub fn validate_optional_field(value: &Option<String>, field: &str) -> (r: Result<(), String>)
    ensures
        reports(r, optional_field_error(opt_text(*value), field@)),
{
    if let Some(value) = value {
        if char_count(value.as_str()) > MAX_CLIENT_FIELD_LEN {
            return Err(concat2(field, " is too long; maximum is 200 characters"));
        }
        if contains_char(value.as_str(), '\0') {
            return Err(concat2(field, " cannot contain NUL bytes"));
        }
    }
    Ok(())
}

/// Checks an expected checksum.
pub fn validate_sha256(value: &Option<String>) -> (r: Result<(), String>)
    ensures
        reports(r, sha256_error(opt_text(*value))),
{
    if let Some(v) = value {
        if str_byte_len(v.as_str()) != 64 {
            return Err("expected_sha256 must be 64 hex characters".to_owned());
        }
        let cs = chars_of(v.as_str());
        let mut i: usize = 0;
        while i < cs.len()
            invariant
                i <= cs@.len(),
                cs@ == v@,
                *value == Some(*v),
                byte_len(v@) == 64,
                forall|j: int| 0 <= j < i ==> is_hex_digit(cs@[j]),
            decreases cs@.len() - i,
        {
            if !char_is_hex_digit(cs[i]) {
                assert(!is_hex_digit(v@[i as int]));
                return Err("expected_sha256 must be 64 hex characters".to_owned());
            }
            i = i + 1;
        }
    }
    Ok(())
}

fn validate_cwd(cwd: &Option<String>) -> (r: Result<(), String>)
    ensures
        reports(r, cwd_error(opt_text(*cwd))),
{
    if let Some(cwd) = cwd {
        if str_byte_len(cwd.as_str()) > MAX_CWD_LEN {
            return Err("cwd is too long; maximum is 1024 bytes".to_owned());
        }
        if contains_char(cwd.as_str(), '\0') {
            return Err("cwd cannot contain NUL bytes".to_owned());
        }
    }
    Ok(())
}

// ---------------------------------------------------------------------------
// Run requests
// ---------------------------------------------------------------------------

/// What is wrong with the request to run a command.
pub open spec fn run_request_error(b: ShellRunRequest) -> Option<Seq<char>> {
    or_else(
        id_error(b.client_id@, "client_id"@),
        or_else(
            complain(trim(b.command@).len() == 0, "command cannot be empty"@),
            or_else(
                complain(
                    byte_len(b.command@) > MAX_COMMAND_LEN,
                    "command is too long; maximum is 8000 bytes"@,
                ),
                or_else(
                    complain(b.command@.contains('\0'), "command cannot contain NUL bytes"@),
                    or_else(
                        stdin_error(opt_text(b.stdin)),
                        or_else(cwd_error(opt_text(b.cwd)), run_times_error(b)),
                    ),
                ),
            ),
        ),
    )
}

/// What is wrong with the standard input of a command.
pub open spec fn stdin_error(stdin: Option<Seq<char>>) -> Option<Seq<char>> {
    match stdin {
        Some(s) => or_else(
            complain(
                byte_len(s) > MAX_RUN_STDIN_BYTES,
                "stdin is too large; maximum is 15728640 bytes"@,
            ),
            complain(s.contains('\0'), "stdin cannot contain NUL bytes"@),
        ),
        None => None,
    }
}

/// What is wrong with the time limits of a command.
pub open spec fn run_times_error(b: ShellRunRequest) -> Option<Seq<char>> {
    or_else(
        complain(
            b.timeout_secs == 0 || b.timeout_secs > MAX_COMMAND_TIMEOUT_SECS,
            "timeout_secs must be between 1 and 86400"@,
        ),
        complain(
            b.wait_timeout_secs > MAX_SYNC_WAIT_SECS,
            "wait_timeout_secs must be <= 120 for synchronous runShell"@,
        ),
    )
}

/// Checks a request to run a command.
pub fn validate_run_request(body: &ShellRunRequest) -> (r: Result<(), String>)
    ensures
        reports(r, run_request_error(*body)),
{
    validate_id(body.client_id.as_str(), "client_id")?;
    if str_trim(body.command.as_str()).is_empty() {
        return Err("command cannot be empty".to_owned());
    }
    if str_byte_len(body.command.as_str()) > MAX_COMMAND_LEN {
        return Err("command is too long; maximum is 8000 bytes".to_owned());
    }
    if contains_char(body.command.as_str(), '\0') {
        return Err("command cannot contain NUL bytes".to_owned());
    }
    if let Some(stdin) = &body.stdin {
        if str_byte_len(stdin.as_str()) > MAX_RUN_STDIN_BYTES {
            return Err("stdin is too large; maximum is 15728640 bytes".to_owned());
        }
        if contains_char(stdin.as_str(), '\0') {
            return Err("stdin cannot contain NUL bytes".to_owned());
        }
    }
    validate_cwd(&body.cwd)?;
    if body.timeout_secs == 0 || body.timeout_secs > MAX_COMMAND_TIMEOUT_SECS {
        return Err("timeout_secs must be between 1 and 86400".to_owned());
    }
    if body.wait_timeout_secs > MAX_SYNC_WAIT_SECS {
        return Err("wait_timeout_secs must be <= 120 for synchronous runShell".to_owned());
    }
    Ok(())
}

// ---------------------------------------------------------------------------
// File requests
// ---------------------------------------------------------------------------

/// The operations on files.
pub open spec fn is_file_op(op: Seq<char>) -> bool {
    ||| op == "read"@
    ||| op == "write"@
    ||| op == "list"@
    ||| is_line_edit(op)
    ||| is_anchor_edit(op)
    ||| op == "apply_text_edits"@
}

/// The operations that change lines by their numbers.
pub open spec fn is_line_edit(op: Seq<char>) -> bool {
    op == "replace_line_range"@ || op == "insert_at_line"@ || op == "delete_line_range"@
}

/// The operations that insert beside a pattern.
pub open spec fn is_insert_pattern(op: Seq<char>) -> bool {
    op == "insert_before_pattern"@ || op == "insert_after_pattern"@
}

/// The operations that find their place by text.
pub open spec fn is_anchor_edit(op: Seq<char>) -> bool {
    op == "replace_exact_block"@ || is_insert_pattern(op)
}

/// The operations that take content.
pub open spec fn takes_content(op: Seq<char>) -> bool {
    ||| op == "write"@
    ||| op == "replace_line_range"@
    ||| op == "insert_at_line"@
    ||| op == "apply_text_edits"@
    ||| is_anchor_edit(op)
}

/// The operations that check the checksum of the file first.
pub open spec fn takes_checksum(op: Seq<char>) -> bool {
    op == "write"@ || is_line_edit(op) || op == "replace_exact_block"@
}

/// Whether `v` is absent or holds no character.
pub open spec fn absent_or_empty(v: Option<Seq<char>>) -> bool {
    match v {
        Some(s) => s.len() == 0,
        None => true,
    }
}

/// Whether `v` holds a NUL character.
pub open spec fn has_nul(v: Option<Seq<char>>) -> bool {
    match v {
        Some(s) => s.contains('\0'),
        None => false,
    }
}

/// What is wrong with the path of a file request.
pub open spec fn path_error(path: Seq<char>) -> Option<Seq<char>> {
    if trim(path).len() == 0 {
        Some("path cannot be empty"@)
    } else if byte_len(path) > MAX_FILE_PATH_LEN {
        Some("path is too long; maximum is 2048 bytes"@)
    } else if path.contains('\0') {
        Some("path cannot contain NUL bytes"@)
    } else {
        None
    }
}

/// What is wrong with the guards that a file request gives.
pub open spec fn guards_error(b: ShellFileOpRequest) -> Option<Seq<char>> {
    let op = b.op@;
    if sha256_error(opt_text(b.expected_sha256)) is Some {
        sha256_error(opt_text(b.expected_sha256))
    } else if b.expected_sha256 is Some && !takes_checksum(op) {
        Some("expected_sha256 is only allowed for op=write, replace_exact_block, or line edit ops"@)
    } else if b.expected_prefix is Some && !is_line_edit(op) {
        Some("expected_prefix is only allowed for line edit ops"@)
    } else if has_nul(opt_text(b.expected_prefix)) {
        Some("expected_prefix cannot contain NUL bytes"@)
    } else if b.create_dirs && op != "write"@ {
        Some("create_dirs is only allowed for op=write"@)
    } else {
        None
    }
}

/// What is wrong with the texts that a file request gives.
pub open spec fn texts_error(b: ShellFileOpRequest) -> Option<Seq<char>> {
    let op = b.op@;
    if b.content is Some && byte_len(b.content->0@) > MAX_FILE_CONTENT_BYTES {
        Some("content is too large; maximum is 524288 bytes"@)
    } else if b.content is Some && !takes_content(op) {
        Some(
            "content is only allowed for op=write, line edit insert/replace, apply_text_edits, or anchor edit tools"@,
        )
    } else if b.old_text is Some && op != "replace_exact_block"@ {
        Some("old_text is only allowed for op=replace_exact_block"@)
    } else if has_nul(opt_text(b.old_text)) {
        Some("old_text cannot contain NUL bytes"@)
    } else if b.pattern is Some && !is_insert_pattern(op) {
        Some("pattern is only allowed for insert pattern ops"@)
    } else if has_nul(opt_text(b.pattern)) {
        Some("pattern cannot contain NUL bytes"@)
    } else if op == "write"@ && b.content is None {
        Some("content is required for op=write"@)
    } else {
        None
    }
}

/// What is wrong with the line range `start..=end`.
pub open spec fn range_error(start: usize, end: usize) -> Option<Seq<char>> {
    complain(start == 0 || end < start, "invalid line range"@)
}

/// What is wrong with the fields of a read.
pub open spec fn read_error(b: ShellFileOpRequest) -> Option<Seq<char>> {
    or_else(
        match (b.start_line, b.end_line) {
            (Some(start), Some(end)) => range_error(start, end),
            (Some(_), None) => Some("end_line is required when start_line is set for op=read"@),
            (None, Some(_)) => Some("start_line is required when end_line is set for op=read"@),
            (None, None) => None,
        },
        complain(b.line is Some, "line is only allowed for op=insert_at_line"@),
    )
}

/// What is wrong with the fields of a replacement of lines.
pub open spec fn replace_lines_error(b: ShellFileOpRequest) -> Option<Seq<char>> {
    if b.start_line is None {
        Some("start_line is required for op=replace_line_range"@)
    } else if b.end_line is None {
        Some("end_line is required for op=replace_line_range"@)
    } else if range_error(b.start_line->0, b.end_line->0) is Some {
        range_error(b.start_line->0, b.end_line->0)
    } else if b.line is Some {
        Some("line is only allowed for op=insert_at_line"@)
    } else if b.content is None {
        Some("content is required for op=replace_line_range"@)
    } else {
        None
    }
}

/// What is wrong with the fields of a deletion of lines.
pub open spec fn delete_lines_error(b: ShellFileOpRequest) -> Option<Seq<char>> {
    if b.start_line is None {
        Some("start_line is required for op=delete_line_range"@)
    } else if b.end_line is None {
        Some("end_line is required for op=delete_line_range"@)
    } else if range_error(b.start_line->0, b.end_line->0) is Some {
        range_error(b.start_line->0, b.end_line->0)
    } else if b.line is Some || b.content is Some {
        Some("delete_line_range only accepts start_line/end_line guards"@)
    } else {
        None
    }
}

/// What is wrong with the fields of an insertion at a line.
pub open spec fn insert_line_error(b: ShellFileOpRequest) -> Option<Seq<char>> {
    if b.line is None {
        Some("line is required for op=insert_at_line"@)
    } else if b.line->0 == 0 {
        Some("line out of range"@)
    } else if b.start_line is Some || b.end_line is Some {
        Some("start_line/end_line are only allowed for range line edit ops"@)
    } else if b.content is None {
        Some("content is required for op=insert_at_line"@)
    } else {
        None
    }
}

/// What is wrong with the fields of a replacement of a block of text.
pub open spec fn replace_block_error(b: ShellFileOpRequest) -> Option<Seq<char>> {
    if absent_or_empty(opt_text(b.old_text)) {
        Some("old_text is required for op=replace_exact_block"@)
    } else if b.content is None {
        Some("content is required for op=replace_exact_block"@)
    } else if b.pattern is Some || b.expected_prefix is Some || b.start_line is Some
        || b.end_line is Some || b.line is Some {
        Some("replace_exact_block only accepts old_text/content/expected_sha256 guards"@)
    } else {
        None
    }
}

/// What is wrong with the fields of an insertion beside a pattern.
pub open spec fn insert_pattern_error(b: ShellFileOpRequest) -> Option<Seq<char>> {
    if absent_or_empty(opt_text(b.pattern)) {
        Some("pattern is required for insert pattern ops"@)
    } else if absent_or_empty(opt_text(b.content)) {
        Some("content is required for insert pattern ops"@)
    } else if b.old_text is Some || b.expected_sha256 is Some || b.expected_prefix is Some
        || b.start_line is Some || b.end_line is Some || b.line is Some {
        Some("insert pattern ops only accept pattern/content"@)
    } else {
        None
    }
}

/// What is wrong with the fields of an operation that edits no place in a file.
pub open spec fn plain_op_error(b: ShellFileOpRequest) -> Option<Seq<char>> {
    if b.expected_prefix is Some || b.start_line is Some || b.end_line is Some || b.line is Some {
        Some("line edit fields are only allowed for line edit ops"@)
    } else if b.old_text is Some || b.pattern is Some {
        Some("anchor edit fields are only allowed for anchor edit ops"@)
    } else {
        None
    }
}

/// What is wrong with the fields that only some operations take.
pub open spec fn op_fields_error(b: ShellFileOpRequest) -> Option<Seq<char>> {
    let op = b.op@;
    if op == "read"@ {
        read_error(b)
    } else if op == "replace_line_range"@ {
        replace_lines_error(b)
    } else if op == "delete_line_range"@ {
        delete_lines_error(b)
    } else if op == "insert_at_line"@ {
        insert_line_error(b)
    } else if op == "replace_exact_block"@ {
        replace_block_error(b)
    } else if is_insert_pattern(op) {
        insert_pattern_error(b)
    } else {
        plain_op_error(b)
    }
}

/// What is wrong with a file request: the first rule that it breaks.
pub open spec fn file_request_error(b: ShellFileOpRequest) -> Option<Seq<char>> {
    or_else(
        id_error(b.client_id@, "client_id"@),
        or_else(
            complain(
                !is_file_op(b.op@),
                "op must be one of read, write, list, replace_line_range, insert_at_line, delete_line_range, replace_exact_block, insert_before_pattern, insert_after_pattern, apply_text_edits"@,
            ),
            or_else(
                path_error(b.path@),
                or_else(
                    cwd_error(opt_text(b.cwd)),
                    or_else(
                        guards_error(b),
                        or_else(
                            texts_error(b),
                            or_else(
                                op_fields_error(b),
                                complain(
                                    b.wait_timeout_secs > MAX_SYNC_WAIT_SECS,
                                    "wait_timeout_secs must be <= 120 for shellFileOp"@,
                                ),
                            ),
                        ),
                    ),
                ),
            ),
        ),
    )
}

fn op_is_line_edit(op: &str) -> (r: bool)
    ensures
        r == is_line_edit(op@),
{
    str_eq(op, "replace_line_range") || str_eq(op, "insert_at_line") || str_eq(
        op,
        "delete_line_range",
    )
}

fn op_is_insert_pattern(op: &str) -> (r: bool)
    ensures
        r == is_insert_pattern(op@),
{
    str_eq(op, "insert_before_pattern") || str_eq(op, "insert_after_pattern")
}

fn op_is_anchor_edit(op: &str) -> (r: bool)
    ensures
        r == is_anchor_edit(op@),
{
    str_eq(op, "replace_exact_block") || op_is_insert_pattern(op)
}

fn is_missing(v: &Option<String>) -> (r: bool)
    ensures
        r == absent_or_empty(opt_text(*v)),
{
    match v {
        Some(s) => s.as_str().is_empty(),
        None => true,
    }
}

fn holds_nul(v: &Option<String>) -> (r: bool)
    ensures
        r == has_nul(opt_text(*v)),
{
    match v {
        Some(s) => contains_char(s.as_str(), '\0'),
        None => false,
    }
}

fn validate_guards(body: &ShellFileOpRequest) -> (r: Result<(), String>)
    ensures
        reports(r, guards_error(*body)),
{
    let op = body.op.as_str();
    let write = str_eq(op, "write");
    let line_edit = op_is_line_edit(op);
    validate_sha256(&body.expected_sha256)?;
    if body.expected_sha256.is_some() && !write && !line_edit && !str_eq(
        op,
        "replace_exact_block",
    ) {
        return Err(
            "expected_sha256 is only allowed for op=write, replace_exact_block, or line edit ops".to_owned(),
        );
    }
    if body.expected_prefix.is_some() && !line_edit {
        return Err("expected_prefix is only allowed for line edit ops".to_owned());
    }
    if holds_nul(&body.expected_prefix) {
        return Err("expected_prefix cannot contain NUL bytes".to_owned());
    }
    if body.create_dirs && !write {
        return Err("create_dirs is only allowed for op=write".to_owned());
    }
    Ok(())
}

fn validate_texts(body: &ShellFileOpRequest) -> (r: Result<(), String>)
    ensures
        reports(r, texts_error(*body)),
{
    let op = body.op.as_str();
    let write = str_eq(op, "write");
    if let Some(content) = &body.content {
        if str_byte_len(content.as_str()) > MAX_FILE_CONTENT_BYTES {
            return Err("content is too large; maximum is 524288 bytes".to_owned());
        }
        if !write && !str_eq(op, "replace_line_range") && !str_eq(op, "insert_at_line") && !str_eq(
            op,
            "apply_text_edits",
        ) && !op_is_anchor_edit(op) {
            return Err(
                "content is only allowed for op=write, line edit insert/replace, apply_text_edits, or anchor edit tools".to_owned(),
            );
        }
    }
    if body.old_text.is_some() && !str_eq(op, "replace_exact_block") {
        return Err("old_text is only allowed for op=replace_exact_block".to_owned());
    }
    if holds_nul(&body.old_text) {
        return Err("old_text cannot contain NUL bytes".to_owned());
    }
    if body.pattern.is_some() && !op_is_insert_pattern(op) {
        return Err("pattern is only allowed for insert pattern ops".to_owned());
    }
    if holds_nul(&body.pattern) {
        return Err("pattern cannot contain NUL bytes".to_owned());
    }
    if write && body.content.is_none() {
        return Err("content is required for op=write".to_owned());
    }
    Ok(())
}

fn validate_range(start: usize, end: usize) -> (r: Result<(), String>)
    ensures
        reports(r, range_error(start, end)),
{
    if start == 0 || end < start {
        return Err("invalid line range".to_owned());
    }
    Ok(())
}

fn validate_op_fields(body: &ShellFileOpRequest) -> (r: Result<(), String>)
    ensures
        reports(r, op_fields_error(*body)),
{
    let op = body.op.as_str();
    if str_eq(op, "read") {
        match (body.start_line, body.end_line) {
            (Some(start), Some(end)) => {
                validate_range(start, end)?;
            },
            (Some(_), None) => {
                return Err("end_line is required when start_line is set for op=read".to_owned());
            },
            (None, Some(_)) => {
                return Err("start_line is required when end_line is set for op=read".to_owned());
            },
            (None, None) => {},
        }
        if body.line.is_some() {
            return Err("line is only allowed for op=insert_at_line".to_owned());
        }
    } else if str_eq(op, "replace_line_range") {
        let Some(start) = body.start_line else {
            return Err("start_line is required for op=replace_line_range".to_owned());
        };
        let Some(end) = body.end_line else {
            return Err("end_line is required for op=replace_line_range".to_owned());
        };
        validate_range(start, end)?;
        if body.line.is_some() {
            return Err("line is only allowed for op=insert_at_line".to_owned());
        }
        if body.content.is_none() {
            return Err("content is required for op=replace_line_range".to_owned());
        }
    } else if str_eq(op, "delete_line_range") {
        let Some(start) = body.start_line else {
            return Err("start_line is required for op=delete_line_range".to_owned());
        };
        let Some(end) = body.end_line else {
            return Err("end_line is required for op=delete_line_range".to_owned());
        };
        validate_range(start, end)?;
        if body.line.is_some() || body.content.is_some() {
            return Err("delete_line_range only accepts start_line/end_line guards".to_owned());
        }
    } else if str_eq(op, "insert_at_line") {
        let Some(line) = body.line else {
            return Err("line is required for op=insert_at_line".to_owned());
        };
        if line == 0 {
            return Err("line out of range".to_owned());
        }
        if body.start_line.is_some() || body.end_line.is_some() {
            return Err("start_line/end_line are only allowed for range line edit ops".to_owned());
        }
        if body.content.is_none() {
            return Err("content is required for op=insert_at_line".to_owned());
        }
    } else if str_eq(op, "replace_exact_block") {
        if is_missing(&body.old_text) {
            return Err("old_text is required for op=replace_exact_block".to_owned());
        }
        if body.content.is_none() {
            return Err("content is required for op=replace_exact_block".to_owned());
        }
        if body.pattern.is_some() || body.expected_prefix.is_some() || body.start_line.is_some()
            || body.end_line.is_some() || body.line.is_some() {
            return Err(
                "replace_exact_block only accepts old_text/content/expected_sha256 guards".to_owned(),
            );
        }
    } else if op_is_insert_pattern(op) {
        if is_missing(&body.pattern) {
            return Err("pattern is required for insert pattern ops".to_owned());
        }
        if is_missing(&body.content) {
            return Err("content is required for insert pattern ops".to_owned());
        }
        if body.old_text.is_some() || body.expected_sha256.is_some()
            || body.expected_prefix.is_some() || body.start_line.is_some()
            || body.end_line.is_some() || body.line.is_some() {
            return Err("insert pattern ops only accept pattern/content".to_owned());
        }
    } else {
        if body.expected_prefix.is_some() || body.start_line.is_some() || body.end_line.is_some()
            || body.line.is_some() {
            return Err("line edit fields are only allowed for line edit ops".to_owned());
        }
        if body.old_text.is_some() || body.pattern.is_some() {
            return Err("anchor edit fields are only allowed for anchor edit ops".to_owned());
        }
    }
    Ok(())
}

/// Checks a file request.
pub fn validate_file_request(body: &ShellFileOpRequest) -> (r: Result<(), String>)
    ensures
        reports(r, file_request_error(*body)),
{
    validate_id(body.client_id.as_str(), "client_id")?;
    let op = body.op.as_str();
    if !(str_eq(op, "read") || str_eq(op, "write") || str_eq(op, "list") || op_is_line_edit(op)
        || op_is_anchor_edit(op) || str_eq(op, "apply_text_edits")) {
        return Err(
            "op must be one of read, write, list, replace_line_range, insert_at_line, delete_line_range, replace_exact_block, insert_before_pattern, insert_after_pattern, apply_text_edits".to_owned(),
        );
    }
    if str_trim(body.path.as_str()).is_empty() {
        return Err("path cannot be empty".to_owned());
    }
    if str_byte_len(body.path.as_str()) > MAX_FILE_PATH_LEN {
        return Err("path is too long; maximum is 2048 bytes".to_owned());
    }
    if contains_char(body.path.as_str(), '\0') {
        return Err("path cannot contain NUL bytes".to_owned());
    }
    validate_cwd(&body.cwd)?;
    validate_guards(body)?;
    validate_texts(body)?;
    validate_op_fields(body)?;
    if body.wait_timeout_secs > MAX_SYNC_WAIT_SECS {
        return Err("wait_timeout_secs must be <= 120 for shellFileOp".to_owned());
    }
    Ok(())
}

// ---------------------------------------------------------------------------
// Normal forms
// ---------------------------------------------------------------------------

/// The text without the white space around it, where any is left.
pub open spec fn trimmed(value: Option<Seq<char>>) -> Option<Seq<char>> {
    match value {
        Some(v) => if trim(v).len() == 0 {
            None
        } else {
            Some(trim(v))
        },
        None => None,
    }
}

/// Trims an optional text and drops it where nothing is left.
pub fn trim_string(value: Option<String>) -> (r: Option<String>)
    ensures
        opt_text(r) == trimmed(opt_text(value)),
{
    match value {
        Some(v) => {
            let t = str_trim(v.as_str());
            if t.is_empty() {
                None
            } else {
                Some(t.to_owned())
            }
        },
        None => None,
    }
}

/// The number of leading projects whose id comes before `id`.
pub open spec fn project_place(s: Seq<ProjectModel>, id: Seq<char>) -> int
    decreases s.len(),
{
    if s.len() == 0 || !text_less(s[0].id, id) {
        0
    } else {
        1 + project_place(s.skip(1), id)
    }
}

/// `s` with `p` at its place, unless a project with its id is there.
pub open spec fn insert_project(s: Seq<ProjectModel>, p: ProjectModel) -> Seq<ProjectModel> {
    let i = project_place(s, p.id);
    if i < s.len() && s[i].id == p.id {
        s
    } else {
        s.insert(i, p)
    }
}

/// The projects in the order of their ids; of those with one id the first stays.
pub open spec fn normalized(s: Seq<ProjectModel>) -> Seq<ProjectModel>
    decreases s.len(),
{
    if s.len() == 0 {
        seq![]
    } else {
        insert_project(normalized(s.drop_last()), s.last())
    }
}

/// `s` with `p` in the place of the project with its id, or added at its place.
pub open spec fn upserted(s: Seq<ProjectModel>, p: ProjectModel) -> Seq<ProjectModel> {
    let i = project_place(s, p.id);
    if i < s.len() && s[i].id == p.id {
        s.update(i, p)
    } else {
        s.insert(i, p)
    }
}

/// Whether the ids ascend, so that none occurs twice.
pub open spec fn ids_ascend(s: Seq<ProjectModel>) -> bool {
    forall|i: int, j: int| 0 <= i < j < s.len() ==> text_less(s[i].id, s[j].id)
}

/// Whether a project of `s` has the id `id`.
pub open spec fn has_project(s: Seq<ProjectModel>, id: Seq<char>) -> bool {
    exists|i: int| 0 <= i < s.len() && (#[trigger] s[i]).id == id
}

/// The first project of `s` with the id `id`.
pub open spec fn first_project(s: Seq<ProjectModel>, id: Seq<char>) -> ProjectModel
    decreases s.len(),
{
    if s.len() <= 1 || s[0].id == id {
        s[0]
    } else {
        first_project(s.skip(1), id)
    }
}

pub proof fn lemma_project_place(s: Seq<ProjectModel>, id: Seq<char>)
    requires
        ids_ascend(s),
    ensures
        0 <= project_place(s, id) <= s.len(),
        forall|i: int| 0 <= i < project_place(s, id) ==> text_less((#[trigger] s[i]).id, id),
        forall|i: int| project_place(s, id) <= i < s.len() ==> !text_less((#[trigger] s[i]).id, id),
        forall|i: int|
            project_place(s, id) < i < s.len() ==> text_less(id, (#[trigger] s[i]).id),
        project_place(s, id) < s.len() && s[project_place(s, id)].id != id ==> text_less(
            id,
            s[project_place(s, id)].id,
        ),
        has_project(s, id) <==> project_place(s, id) < s.len() && s[project_place(s, id)].id == id,
    decreases s.len(),
{
    let k = project_place(s, id);
    if s.len() > 0 && text_less(s[0].id, id) {
        let t = s.skip(1);
        assert forall|i: int, j: int| 0 <= i < j < t.len() implies text_less(t[i].id, t[j].id) by {
            assert(text_less(s[i + 1].id, s[j + 1].id));
        }
        lemma_project_place(t, id);
        assert forall|i: int| 0 <= i < k implies text_less((#[trigger] s[i]).id, id) by {
            if i > 0 {
                assert(s[i] == t[i - 1]);
            }
        }
        assert forall|i: int| k <= i < s.len() implies !text_less((#[trigger] s[i]).id, id) by {
            assert(s[i] == t[i - 1]);
        }
        assert forall|i: int| k < i < s.len() implies text_less(id, (#[trigger] s[i]).id) by {
            assert(s[i] == t[i - 1]);
        }
        if k < s.len() {
            assert(s[k] == t[k - 1]);
        }
    } else if s.len() > 0 {
        assert forall|i: int| 0 <= i < s.len() implies !text_less((#[trigger] s[i]).id, id)
            && (i > 0 || s[0].id != id ==> text_less(id, s[i].id)) by {
            lemma_less_total(s[0].id, id);
            if i > 0 {
                assert(text_less(s[0].id, s[i].id));
                if s[0].id == id {
                    assert(text_less(id, s[i].id));
                } else {
                    lemma_less_transitive(id, s[0].id, s[i].id);
                }
                if text_less(s[i].id, id) {
                    lemma_less_transitive(s[i].id, id, s[i].id);
                    lemma_less_irreflexive(s[i].id);
                }
            }
        }
    }
    if has_project(s, id) {
        let i = choose|i: int| 0 <= i < s.len() && (#[trigger] s[i]).id == id;
        lemma_less_irreflexive(id);
        assert(!text_less(s[i].id, id));
        assert(!text_less(id, s[i].id));
    }
}

proof fn lemma_insert_ascends(s: Seq<ProjectModel>, p: ProjectModel)
    requires
        ids_ascend(s),
    ensures
        !has_project(s, p.id) ==> ids_ascend(s.insert(project_place(s, p.id), p)),
        has_project(s, p.id) ==> ids_ascend(s.update(project_place(s, p.id), p)),
{
    lemma_project_place(s, p.id);
    let k = project_place(s, p.id);
    if !has_project(s, p.id) {
        let t = s.insert(k, p);
        assert forall|i: int, j: int| 0 <= i < j < t.len() implies text_less(t[i].id, t[j].id) by {
            if j < k {
                assert(t[i] == s[i] && t[j] == s[j]);
            } else if j == k {
                assert(t[i] == s[i]);
            } else if i < k {
                assert(t[i] == s[i] && t[j] == s[j - 1]);
            } else if i == k {
                assert(t[j] == s[j - 1]);
            } else {
                assert(t[i] == s[i - 1] && t[j] == s[j - 1]);
            }
        }
    }
}

/// Normalizing puts the ids into ascending order.
pub proof fn law_normalized_ascends(s: Seq<ProjectModel>)
    ensures
        ids_ascend(normalized(s)),
    decreases s.len(),
{
    if s.len() > 0 {
        law_normalized_ascends(s.drop_last());
        let t = normalized(s.drop_last());
        lemma_insert_ascends(t, s.last());
        lemma_project_place(t, s.last().id);
    }
}

/// Normalizing keeps every id that was given, and nothing else.
pub proof fn law_normalized_keeps_ids(s: Seq<ProjectModel>, id: Seq<char>)
    ensures
        has_project(normalized(s), id) == has_project(s, id),
    decreases s.len(),
{
    if s.len() > 0 {
        let front = s.drop_last();
        let t = normalized(front);
        let p = s.last();
        law_normalized_ascends(front);
        law_normalized_keeps_ids(front, id);
        lemma_project_place(t, p.id);
        let k = project_place(t, p.id);
        let n = normalized(s);
        if has_project(s, id) {
            let i = choose|i: int| 0 <= i < s.len() && (#[trigger] s[i]).id == id;
            if i < front.len() {
                assert(front[i].id == id);
                let j = choose|j: int| 0 <= j < t.len() && (#[trigger] t[j]).id == id;
                assert(n[if n.len() == t.len() || j < k { j } else { j + 1 }].id == id);
            } else {
                assert(n[k].id == id);
            }
        }
        if has_project(n, id) {
            let j = choose|j: int| 0 <= j < n.len() && (#[trigger] n[j]).id == id;
            if n.len() == t.len() {
                assert(t[j].id == id);
            } else if j < k {
                assert(t[j].id == id);
            } else if j == k {
                assert(s[s.len() - 1].id == id);
            } else {
                assert(t[j - 1].id == id);
            }
            if has_project(t, id) {
                let i = choose|i: int| 0 <= i < front.len() && (#[trigger] front[i]).id == id;
                assert(s[i].id == id);
            }
        }
    }
}

/// Of the projects that were given with one id, normalizing keeps the first.
pub proof fn law_normalized_keeps_first(s: Seq<ProjectModel>, i: int)
    requires
        0 <= i < normalized(s).len(),
    ensures
        normalized(s)[i] == first_project(s, normalized(s)[i].id),
    decreases s.len(),
{
    let n = normalized(s);
    let id = n[i].id;
    if s.len() > 0 {
        let front = s.drop_last();
        let t = normalized(front);
        let p = s.last();
        law_normalized_ascends(front);
        lemma_project_place(t, p.id);
        let k = project_place(t, p.id);
        law_normalized_keeps_ids(front, p.id);
        if n.len() != t.len() && i == k {
            assert(!has_project(front, p.id));
            lemma_first_project_last(s, p.id);
        } else {
            let j = if n.len() == t.len() || i < k { i } else { i - 1 };
            assert(t[j] == n[i]);
            law_normalized_keeps_first(front, j);
            law_normalized_keeps_ids(front, id);
            assert(has_project(t, id));
            lemma_first_project_front(s, id);
        }
    }
}

proof fn lemma_first_project_last(s: Seq<ProjectModel>, id: Seq<char>)
    requires
        s.len() > 0,
        !has_project(s.drop_last(), id),
    ensures
        first_project(s, id) == s.last(),
    decreases s.len(),
{
    if s.len() > 1 {
        let t = s.skip(1);
        assert(s.drop_last()[0] == s[0]);
        assert forall|i: int| 0 <= i < t.drop_last().len() implies (
        #[trigger] t.drop_last()[i]).id != id by {
            assert(t.drop_last()[i] == s.drop_last()[i + 1]);
        }
        lemma_first_project_last(t, id);
    }
}

proof fn lemma_first_project_front(s: Seq<ProjectModel>, id: Seq<char>)
    requires
        s.len() > 0,
        has_project(s.drop_last(), id),
    ensures
        first_project(s, id) == first_project(s.drop_last(), id),
    decreases s.len(),
{
    let f = s.drop_last();
    let w = choose|w: int| 0 <= w < f.len() && (#[trigger] f[w]).id == id;
    assert(f[0] == s[0]);
    if s[0].id != id {
        let t = s.skip(1);
        assert(t.drop_last() =~= f.skip(1));
        if f.len() > 1 {
            assert(t.drop_last()[w - 1].id == id);
            lemma_first_project_front(t, id);
        }
    }
}

/// Normalizing a list in ascending order changes nothing.
pub proof fn law_normalized_fixed(s: Seq<ProjectModel>)
    requires
        ids_ascend(s),
    ensures
        normalized(s) == s,
    decreases s.len(),
{
    if s.len() > 0 {
        let t = s.drop_last();
        assert(ids_ascend(t));
        law_normalized_fixed(t);
        lemma_project_place(t, s.last().id);
        let k = project_place(t, s.last().id);
        if k < t.len() {
            assert(text_less(s[k].id, s.last().id));
            assert(t[k] == s[k]);
        }
        assert(t.insert(k, s.last()) =~= s);
    }
}

/// Normalizing twice is normalizing once.
pub proof fn law_normalized_idempotent(s: Seq<ProjectModel>)
    ensures
        normalized(normalized(s)) == normalized(s),
{
    law_normalized_ascends(s);
    law_normalized_fixed(normalized(s));
}

/// Upserting a project keeps the ids in ascending order, and the project is there.
pub proof fn law_upserted(s: Seq<ProjectModel>, p: ProjectModel)
    requires
        ids_ascend(s),
    ensures
        ids_ascend(upserted(s, p)),
        upserted(s, p).contains(p),
{
    lemma_project_place(s, p.id);
    lemma_insert_ascends(s, p);
    assert(upserted(s, p)[project_place(s, p.id)] == p);
}

fn find_place(v: &Vec<ShellAgentProjectSummary>, id: &str) -> (r: usize)
    ensures
        r <= v@.len(),
        r == project_place(views(v@), id@),
{
    let mut i: usize = 0;
    let ghost all = views(v@);
    assert(all.skip(0) =~= all);
    while i < v.len() && str_less(v[i].id.as_str(), id)
        invariant
            i <= v@.len(),
            all == views(v@),
            project_place(all, id@) == i + project_place(all.skip(i as int), id@),
        decreases v@.len() - i,
    {
        assert(all.skip(i as int).skip(1) =~= all.skip(i + 1));
        i = i + 1;
    }
    i
}

/// Puts the projects into the order of their ids and drops repeated ids.
pub fn normalize_project_summaries(projects: Option<Vec<ShellAgentProjectSummary>>) -> (r: Vec<
    ShellAgentProjectSummary,
>)
    ensures
        views(r@) == match projects {
            Some(v) => normalized(views(v@)),
            None => seq![],
        },
{
    let mut out: Vec<ShellAgentProjectSummary> = Vec::new();
    let Some(v) = projects else {
        assert(views(out@) =~= seq![]);
        return out;
    };
    let mut i: usize = 0;
    assert(views(out@) =~= normalized(views(v@).take(0)));
    while i < v.len()
        invariant
            i <= v@.len(),
            views(out@) == normalized(views(v@).take(i as int)),
        decreases v@.len() - i,
    {
        let place = find_place(&out, v[i].id.as_str());
        let ghost before = views(out@);
        proof {
            let next = views(v@).take(i + 1);
            assert(next.drop_last() =~= views(v@).take(i as int));
            assert(next.last() == v@[i as int]@);
        }
        if place < out.len() && str_eq(out[place].id.as_str(), v[i].id.as_str()) {
        } else {
            out.insert(place, v[i].copy());
            assert(views(out@) =~= before.insert(place as int, v@[i as int]@));
        }
        i = i + 1;
    }
    assert(views(v@).take(i as int) =~= views(v@));
    out
}

/// Replaces the project with the id of `project`, or adds it at its place.
pub fn upsert_project(v: &mut Vec<ShellAgentProjectSummary>, project: ShellAgentProjectSummary)
    ensures
        views(final(v)@) == upserted(views(old(v)@), project@),
{
    let place = find_place(v, project.id.as_str());
    let ghost before = views(v@);
    if place < v.len() && str_eq(v[place].id.as_str(), project.id.as_str()) {
        v.set(place, project);
        assert(views(v@) =~= before.update(place as int, project@));
    } else {
        v.insert(place, project);
        assert(views(v@) =~= before.insert(place as int, project@));
    }
}

// ---------------------------------------------------------------------------
// Checksums
// ---------------------------------------------------------------------------

/// The SHA-256 digest of the UTF-8 bytes of a text, in lower-case hexadecimal.
pub uninterp spec fn sha256_hex_of(value: Seq<char>) -> Seq<char>;

/// A text of 64 hexadecimal digits is a valid expected checksum.
pub proof fn lemma_hex_digest_valid(s: Seq<char>)
    requires
        s.len() == 64,
        forall|i: int| 0 <= i < s.len() ==> is_hex_digit(#[trigger] s[i]),
    ensures
        sha256_error(Some(s)) is None,
{
    assert(vstd::utf8::is_ascii_chars(s)) by {
        assert forall|i: int| 0 <= i < s.len() implies vstd::utf8::is_ascii_chars(
            seq![#[trigger] s[i]],
        ) by {
            assert(is_hex_digit(s[i]));
        }
    }
    vstd::utf8::is_ascii_chars_encode_utf8(s);
}

/// `sha2::Sha256::digest` on the bytes of `value`, its 32 bytes written as two
/// hexadecimal digits each. The digest is a function of the bytes alone.
#[verifier::external_body]
pub(crate) fn sha256_hex(value: &str) -> (r: String)
    ensures
        r@ == sha256_hex_of(value@),
        r@.len() == 64,
        forall|i: int| 0 <= i < r@.len() ==> is_hex_digit(#[trigger] r@[i]),
{
    format!("{:x}", Sha256::digest(value.as_bytes()))
}

} // verus!
