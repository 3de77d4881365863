//! The decisions of the operating-system runner: which process to start for
//! an attempt, the macOS `sandbox-exec` profile that confines it, and how the
//! process's outcome is classified. Starting the process is the host's part.

use vstd::prelude::*;
use crate::model::approval::SandboxProfile;
use crate::model::command_request::{CommandRequest, CommandRequestModel};
use crate::model::event::{ExecutionAttempt, ExecutionAttemptModel};
use crate::model::execution::{ExecutionFailure, ExecutionFailureModel, ExecutionResult, ExecutionResultModel};
use crate::text::{chars_of, contains_text, push_str, str_contains, string_from_chars};

verus! {

/// The runner that starts real processes.
pub struct OsExecutionRunner {
    pub sandbox_backend: SandboxBackend,
}

/// How sandboxed attempts are confined.
#[derive(Debug, Clone, Copy, PartialEq, Eq, Structural)]
pub enum SandboxBackend {
    /// macOS's own `sandbox-exec`.
    MacosSandboxExec,
}

/// A process to start: program, arguments and working directory.
pub struct ProcessInvocation {
    pub program: String,
    pub args: Vec<String>,
    pub cwd: String,
}

/// How a started process ended.
pub enum ProcessOutcome {
    /// The process could not be started; the error's text.
    SpawnFailed(String),
    /// The process exited.
    Exited { success: bool, code: Option<i32>, stdout: String, stderr: String },
}

/// The mathematical value of a [`ProcessInvocation`].
pub struct ProcessInvocationModel {
    pub program: Seq<char>,
    pub args: Seq<Seq<char>>,
    pub cwd: Seq<char>,
}

/// The mathematical value of a [`ProcessOutcome`].
pub enum ProcessOutcomeModel {
    SpawnFailed(Seq<char>),
    Exited { success: bool, code: Option<i32>, stdout: Seq<char>, stderr: Seq<char> },
}

impl View for ProcessInvocation {
    type V = ProcessInvocationModel;

    open spec fn view(&self) -> ProcessInvocationModel {
        ProcessInvocationModel {
            program: self.program@,
            args: self.args.deep_view(),
            cwd: self.cwd@,
        }
    }
}

impl View for ProcessOutcome {
    type V = ProcessOutcomeModel;

    open spec fn view(&self) -> ProcessOutcomeModel {
        match self {
            ProcessOutcome::SpawnFailed(e) => ProcessOutcomeModel::SpawnFailed(e@),
            ProcessOutcome::Exited { success, code, stdout, stderr } => ProcessOutcomeModel::Exited {
                success: *success,
                code: *code,
                stdout: stdout@,
                stderr: stderr@,
            },
        }
    }
}

/// How one character is written inside a quoted `sandbox-exec` string.
pub open spec fn scheme_escape_char(c: char) -> Seq<char> {
    if c == '\\' {
        seq!['\\', '\\']
    } else if c == '"' {
        seq!['\\', '"']
    } else if c == '\n' {
        seq!['\\', 'n']
    } else if c == '\r' {
        seq!['\\', 'r']
    } else if c == '\t' {
        seq!['\\', 't']
    } else {
        seq![c]
    }
}

/// A text written as the body of a quoted `sandbox-exec` string.
pub open spec fn scheme_escaped(s: Seq<char>) -> Seq<char>
    decreases s.len(),
{
    if s.len() == 0 {
        Seq::empty()
    } else {
        scheme_escaped(s.drop_last()) + scheme_escape_char(s.last())
    }
}

/// Escapes a path for a quoted string literal of a `sandbox-exec` profile.
pub fn sandbox_scheme_string(value: &str) -> (r: String)
    ensures
        r@ == scheme_escaped(value@),
{
    let chars = chars_of(value);
    let mut escaped: Vec<char> = Vec::new();
    let mut i: usize = 0;
    while i < chars.len()
        invariant
            chars@ == value@,
            i <= chars.len(),
            escaped@ == scheme_escaped(chars@.take(i as int)),
        decreases chars.len() - i,
    {
        let ch = chars[i];
        if ch == '\\' {
            escaped.push('\\');
            escaped.push('\\');
        } else if ch == '"' {
            escaped.push('\\');
            escaped.push('"');
        } else if ch == '\n' {
            escaped.push('\\');
            escaped.push('n');
        } else if ch == '\r' {
            escaped.push('\\');
            escaped.push('r');
        } else if ch == '\t' {
            escaped.push('\\');
            escaped.push('t');
        } else {
            escaped.push(ch);
        }
        proof {
            assert(chars@.take(i + 1).drop_last() =~= chars@.take(i as int));
            assert(chars@.take(i + 1).last() == ch);
            assert(escaped@ =~= scheme_escaped(chars@.take(i + 1)));
        }
        i = i + 1;
    }
    assert(chars@.take(chars.len() as int) =~= chars@);
    string_from_chars(escaped)
}

/// An escaped text holds no raw line break or tab, and every quote in it is
/// preceded by a backslash: it cannot end the string literal it is put in.
pub proof fn lemma_escaped_is_one_literal(s: Seq<char>)
    ensures
        forall|i: int|
            0 <= i < scheme_escaped(s).len() ==> #[trigger] scheme_escaped(s)[i] != '\n' && scheme_escaped(s)[i]
                != '\r' && scheme_escaped(s)[i] != '\t',
        forall|i: int|
            0 <= i < scheme_escaped(s).len() && #[trigger] scheme_escaped(s)[i] == '"' ==> i > 0
                && scheme_escaped(s)[i - 1] == '\\',
    decreases s.len(),
{
    if s.len() > 0 {
        lemma_escaped_is_one_literal(s.drop_last());
        let a = scheme_escaped(s.drop_last());
        let b = scheme_escape_char(s.last());
        assert(scheme_escaped(s) == a + b);
        assert forall|i: int| 0 <= i < (a + b).len() implies #[trigger] (a + b)[i] != '\n' && (a + b)[i] != '\r'
            && (a + b)[i] != '\t' by {
            if i >= a.len() {
                assert((a + b)[i] == b[i - a.len()]);
            } else {
                assert((a + b)[i] == a[i]);
            }
        }
        assert forall|i: int| 0 <= i < (a + b).len() && #[trigger] (a + b)[i] == '"' implies i > 0 && (a
            + b)[i - 1] == '\\' by {
            if i >= a.len() {
                assert((a + b)[i] == b[i - a.len()]);
                assert(i - a.len() == 1);
                assert((a + b)[i - 1] == b[0]);
            } else {
                assert((a + b)[i] == a[i]);
                assert((a + b)[i - 1] == a[i - 1]);
            }
        }
    }
}

/// The read-only profile: deny by default, allow processes and reads.
pub open spec fn read_only_profile_text() -> Seq<char> {
    "\n(version 1)\n(deny default)\n(allow process*)\n(allow file-read*)\n"@
}

/// The workspace-write profile: read-only, plus writes under the workspace root.
pub open spec fn workspace_write_profile_text(writable_root: Seq<char>) -> Seq<char> {
    "\n(version 1)\n(deny default)\n(allow process*)\n(allow file-read*)\n(allow file-write* (subpath \""@
        + scheme_escaped(writable_root) + "\"))\n"@
}

/// The `sandbox-exec` profile that denies everything but processes and reads.
pub fn read_only_profile() -> (r: String)
    ensures
        r@ == read_only_profile_text(),
{
    "\n(version 1)\n(deny default)\n(allow process*)\n(allow file-read*)\n".to_string()
}

/// The `sandbox-exec` profile that also allows writes under `writable_root`,
/// the workspace directory as the file system resolves it.
pub fn workspace_write_profile(writable_root: &str) -> (r: String)
    ensures
        r@ == workspace_write_profile_text(writable_root@),
{
    let mut r =
        "\n(version 1)\n(deny default)\n(allow process*)\n(allow file-read*)\n(allow file-write* (subpath \"".to_string();
    r.append(sandbox_scheme_string(writable_root).as_str());
    r.append("\"))\n");
    r
}

/// The profile for a sandbox; there is none for running without a sandbox.
pub open spec fn profile_text(profile: SandboxProfile, writable_root: Seq<char>) -> Seq<char> {
    match profile {
        SandboxProfile::WorkspaceWrite => workspace_write_profile_text(writable_root),
        _ => read_only_profile_text(),
    }
}

/// The `sandbox-exec` profile of a sandbox profile.
pub fn sandbox_exec_profile(profile: SandboxProfile, writable_root: &str) -> (r: String)
    requires
        profile != SandboxProfile::NoSandbox,
    ensures
        r@ == profile_text(profile, writable_root@),
{
    match profile {
        SandboxProfile::ReadOnly => read_only_profile(),
        SandboxProfile::WorkspaceWrite => workspace_write_profile(writable_root),
        SandboxProfile::NoSandbox => read_only_profile(),
    }
}

/// Where `sandbox-exec` is installed.
pub open spec fn sandbox_exec_path() -> Seq<char> {
    "/usr/bin/sandbox-exec"@
}

/// The process to start for an attempt, or why none can be started.
pub open spec fn invocation_for(
    request: CommandRequestModel,
    attempt: ExecutionAttemptModel,
    writable_root: Seq<char>,
) -> Result<ProcessInvocationModel, Seq<char>> {
    match attempt {
        ExecutionAttemptModel::SandboxFirst { sandbox_profile } => if sandbox_profile
            == SandboxProfile::NoSandbox {
            Err("SandboxFirst cannot run with SandboxProfile::NoSandbox"@)
        } else if request.argv.len() == 0 {
            Err("empty argv"@)
        } else {
            Ok(
                ProcessInvocationModel {
                    program: sandbox_exec_path(),
                    args: seq!["-p"@, profile_text(sandbox_profile, writable_root)] + request.argv,
                    cwd: request.cwd,
                },
            )
        },
        _ => if request.argv.len() == 0 {
            Err("empty argv"@)
        } else {
            Ok(
                ProcessInvocationModel {
                    program: request.argv[0],
                    args: request.argv.drop_first(),
                    cwd: request.cwd,
                },
            )
        },
    }
}

/// ASCII lower case of a character.
pub open spec fn ascii_lower(c: char) -> char {
    if 'A' <= c && c <= 'Z' {
        ((c as u32) + 32) as char
    } else {
        c
    }
}

/// ASCII lower case of a text.
pub open spec fn ascii_lowercase(s: Seq<char>) -> Seq<char> {
    s.map_values(|c: char| ascii_lower(c))
}

/// Whether a failure's output reads like a sandbox denial.
pub open spec fn reads_like_denial(output: Seq<char>) -> bool {
    let lower = ascii_lowercase(output);
    contains_text(lower, "operation not permitted"@) || contains_text(lower, "deny"@)
        || contains_text(lower, "sandbox"@) || contains_text(lower, "not permitted"@)
}

/// Whether an output reads like a sandbox denial: it mentions, in any case,
/// "operation not permitted", "deny", "sandbox" or "not permitted".
pub fn looks_like_sandbox_denied(output: &str) -> (r: bool)
    ensures
        r == reads_like_denial(output@),
{
    let chars = chars_of(output);
    let mut lower: Vec<char> = Vec::new();
    let mut i: usize = 0;
    while i < chars.len()
        invariant
            chars@ == output@,
            i <= chars.len(),
            lower@ =~= ascii_lowercase(chars@.take(i as int)),
        decreases chars.len() - i,
    {
        let c = chars[i];
        let l = if 'A' <= c && c <= 'Z' {
            char_from_u32_ascii((c as u32) + 32)
        } else {
            c
        };
        lower.push(l);
        i = i + 1;
    }
    assert(chars@.take(chars.len() as int) =~= chars@);
    let text = string_from_chars(lower);
    str_contains(text.as_str(), "operation not permitted") || str_contains(text.as_str(), "deny")
        || str_contains(text.as_str(), "sandbox") || str_contains(text.as_str(), "not permitted")
}

/// The character of an ASCII code.
fn char_from_u32_ascii(code: u32) -> (c: char)
    requires
        code < 128,
    ensures
        c == code as char,
{
    let b: u8 = code as u8;
    let c = b as char;
    assert(c == code as char);
    c
}

/// What a failed process's output becomes.
pub open spec fn classified_failure(
    attempt: ExecutionAttemptModel,
    exit_code: i32,
    stdout: Seq<char>,
    stderr: Seq<char>,
) -> ExecutionResultModel {
    let combined = stdout + "\n"@ + stderr;
    if (attempt is SandboxFirst) && reads_like_denial(combined) {
        ExecutionResultModel::Failure(
            ExecutionFailureModel::SandboxDenied { output: combined, network_context: None },
        )
    } else {
        ExecutionResultModel::Failure(
            ExecutionFailureModel::CommandFailed { exit_code, stderr: combined },
        )
    }
}

/// Classifies a failed process: in a sandboxed attempt, output that reads
/// like a denial is a sandbox denial; anything else is a failure of the
/// command. The stdout and stderr are joined by a line break.
pub fn classify_failed_output(
    attempt: &ExecutionAttempt,
    exit_code: i32,
    stdout: String,
    stderr: String,
) -> (r: ExecutionResult)
    ensures
        r@ == classified_failure(attempt@, exit_code, stdout@, stderr@),
{
    let mut combined = stdout;
    combined.append("\n");
    combined.append(stderr.as_str());
    let sandboxed = match attempt {
        ExecutionAttempt::SandboxFirst { .. } => true,
        _ => false,
    };
    if sandboxed && looks_like_sandbox_denied(combined.as_str()) {
        return ExecutionResult::Failure(
            ExecutionFailure::SandboxDenied { output: combined, network_context: None },
        );
    }
    ExecutionResult::Failure(ExecutionFailure::CommandFailed { exit_code, stderr: combined })
}

/// What a process outcome becomes.
pub open spec fn outcome_result(
    attempt: ExecutionAttemptModel,
    outcome: ProcessOutcomeModel,
) -> ExecutionResultModel {
    match outcome {
        ProcessOutcomeModel::SpawnFailed(e) => ExecutionResultModel::Failure(
            ExecutionFailureModel::CommandFailed { exit_code: 127, stderr: e },
        ),
        ProcessOutcomeModel::Exited { success, code, stdout, stderr } => if success {
            ExecutionResultModel::Success { stdout }
        } else {
            classified_failure(
                attempt,
                match code {
                    Some(c) => c,
                    None => 1,
                },
                stdout,
                stderr,
            )
        },
    }
}

/// Maps a process outcome to an execution result: a process that could not
/// start failed with exit code 127, a success keeps its stdout, and a failure
/// without an exit code counts as exit code 1.
pub fn map_output(attempt: &ExecutionAttempt, output: ProcessOutcome) -> (r: ExecutionResult)
    ensures
        r@ == outcome_result(attempt@, output@),
{
    match output {
        ProcessOutcome::SpawnFailed(e) => ExecutionResult::Failure(
            ExecutionFailure::CommandFailed { exit_code: 127, stderr: e },
        ),
        ProcessOutcome::Exited { success, code, stdout, stderr } => {
            if success {
                return ExecutionResult::Success { stdout };
            }
            let exit_code = match code {
                Some(c) => c,
                None => 1,
            };
            classify_failed_output(attempt, exit_code, stdout, stderr)
        },
    }
}

impl OsExecutionRunner {
    /// A runner with the given sandbox backend.
    pub fn new(sandbox_backend: SandboxBackend) -> (r: Self)
        ensures
            r.sandbox_backend == sandbox_backend,
    {
        OsExecutionRunner { sandbox_backend }
    }

    /// The process to start for an attempt: a sandboxed attempt runs the
    /// command under `sandbox-exec` with its profile, an unsandboxed one runs
    /// it directly; both in the request's cwd. A sandboxed attempt without a
    /// sandbox, or an empty command, starts nothing.
    pub fn invocation(
        &self,
        request: &CommandRequest,
        attempt: &ExecutionAttempt,
        writable_root: &str,
    ) -> (r: Result<ProcessInvocation, String>)
        ensures
            match r {
                Ok(p) => invocation_for(request@, attempt@, writable_root@) == Ok::<
                    ProcessInvocationModel,
                    Seq<char>,
                >(p@),
                Err(e) => invocation_for(request@, attempt@, writable_root@) == Err::<
                    ProcessInvocationModel,
                    Seq<char>,
                >(e@),
            },
    {
        match attempt {
            ExecutionAttempt::SandboxFirst { sandbox_profile } => match self.sandbox_backend {
                SandboxBackend::MacosSandboxExec => {
                    if *sandbox_profile == SandboxProfile::NoSandbox {
                        return Err("SandboxFirst cannot run with SandboxProfile::NoSandbox".to_string());
                    }
                    if request.argv.len() == 0 {
                        return Err("empty argv".to_string());
                    }
                    let profile = sandbox_exec_profile(*sandbox_profile, writable_root);
                    let mut args: Vec<String> = Vec::new();
                    args.push("-p".to_string());
                    args.push(profile);
                    let mut rest = crate::text::clone_strings(&request.argv);
                    let ghost front = args.deep_view();
                    assert(front =~= seq!["-p"@, profile_text(*sandbox_profile, writable_root@)]);
                    let ghost a0 = args@;
                    let ghost r0 = rest@;
                    args.append(&mut rest);
                    assert(args@ == a0 + r0);
                    assert(args.deep_view() =~= front + request.argv.deep_view());
                    Ok(
                        ProcessInvocation {
                            program: "/usr/bin/sandbox-exec".to_string(),
                            args,
                            cwd: request.cwd.clone(),
                        },
                    )
                },
            },
            ExecutionAttempt::NoSandboxFirst { .. } | ExecutionAttempt::NoSandboxRetry { .. } => {
                if request.argv.len() == 0 {
                    return Err("empty argv".to_string());
                }
                let mut args: Vec<String> = Vec::new();
                let mut i: usize = 1;
                while i < request.argv.len()
                    invariant
                        1 <= i <= request.argv.len(),
                        args.deep_view() =~= request.argv.deep_view().subrange(1, i as int),
                    decreases request.argv.len() - i,
                {
                    let ghost before = args.deep_view();
                    args.push(request.argv[i].clone());
                    assert(args.deep_view() =~= before.push(request.argv.deep_view()[i as int]));
                    i = i + 1;
                }
                assert(request.argv.deep_view().subrange(1, request.argv.len() as int)
                    =~= request.argv.deep_view().drop_first());
                Ok(
                    ProcessInvocation {
                        program: request.argv[0].clone(),
                        args,
                        cwd: request.cwd.clone(),
                    },
                )
            },
        }
    }
}

} // verus!
