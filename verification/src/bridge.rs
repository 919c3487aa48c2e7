//! The bridge to the remote host: the believed working directory, how a
//! command is sent into it, and how a change of directory is settled.
//!
//! The remote host only runs commands. Where it stands is believed, not
//! known: the belief is set from `pwd -P` at the start and after each change
//! of directory that the remote host confirmed.

use vstd::prelude::*;
use crate::target::{key_of, Target, TargetView};
use crate::text::{chars_of, contains, contains_chars, trim, trimmed};

verus! {

/// What one remote execution gave.
#[derive(Debug, PartialEq, Eq)]
pub struct CommandResult {
    pub exit_status: i32,
    pub stdout: String,
    pub stderr: String,
}

pub struct CommandResultView {
    pub exit_status: i32,
    pub stdout: Seq<char>,
    pub stderr: Seq<char>,
}

impl View for CommandResult {
    type V = CommandResultView;

    open spec fn view(&self) -> CommandResultView {
        CommandResultView {
            exit_status: self.exit_status,
            stdout: self.stdout@,
            stderr: self.stderr@,
        }
    }
}

/// What is believed of the session: who is connected where, in which
/// directory, and whether the remote host has been found to offer `stat`.
#[derive(Debug, PartialEq, Eq)]
pub struct SSHClient {
    pub host_name: String,
    pub user: String,
    pub current_directory: String,
    pub port: String,
    pub stat_available: bool,
}

pub struct SSHClientView {
    pub host_name: Seq<char>,
    pub user: Seq<char>,
    pub current_directory: Seq<char>,
    pub port: Seq<char>,
    pub stat_available: bool,
}

impl View for SSHClient {
    type V = SSHClientView;

    open spec fn view(&self) -> SSHClientView {
        SSHClientView {
            host_name: self.host_name@,
            user: self.user@,
            current_directory: self.current_directory@,
            port: self.port@,
            stat_available: self.stat_available,
        }
    }
}

/// The address to connect to: `host:port`.
pub open spec fn address_of(t: TargetView) -> Seq<char> {
    t.host + seq![':'] + t.port
}

/// The prompt of the shell: `trump > user@host:port > `.
pub open spec fn prompt_of(c: SSHClientView) -> Seq<char> {
    "trump > "@ + key_of(TargetView { user: c.user, host: c.host_name, port: c.port }) + " > "@
}

/// The path that a change of directory towards `target` aims at: `target`
/// itself where it begins at the root or at the home marker, else `target`
/// joined onto the working directory `cwd`.
pub open spec fn candidate_of(cwd: Seq<char>, target: Seq<char>) -> Seq<char> {
    if target.len() > 0 && (target[0] == '/' || target[0] == '~') {
        target
    } else if cwd.len() == 0 {
        target
    } else if cwd.last() == '/' {
        cwd + target
    } else {
        cwd + seq!['/'] + target
    }
}

/// The command `command` sent into the directory `cwd`.
pub open spec fn in_directory(cwd: Seq<char>, command: Seq<char>) -> Seq<char> {
    "cd "@ + cwd + " && "@ + command
}

/// The probe that settles a change of directory to `candidate`.
pub open spec fn cd_probe(candidate: Seq<char>) -> Seq<char> {
    in_directory(candidate, "pwd"@)
}

/// The check, where `cd` is missing, that `candidate` exists.
pub open spec fn existence_check(candidate: Seq<char>, stat_available: bool) -> Seq<char> {
    if stat_available {
        "stat "@ + candidate
    } else {
        "ls -d "@ + candidate
    }
}

/// The texts by which a remote host says that it has no `cd`.
pub open spec fn missing_cd_signatures() -> Seq<Seq<char>> {
    seq!["cd: not found"@, "cd: command not found"@, "\"cd\": executable file not found"@]
}

/// Whether one of `signatures` stands in `text`.
pub open spec fn matches_any(text: Seq<char>, signatures: Seq<Seq<char>>) -> bool {
    exists|i: int| 0 <= i < signatures.len() && contains(text, #[trigger] signatures[i])
}

/// Whether what a command gave says that the remote host has no `cd`: one of
/// the signatures stands in its standard output followed by its standard
/// error.
pub open spec fn says_missing_cd(r: CommandResultView) -> bool {
    matches_any(r.stdout + r.stderr, missing_cd_signatures())
}

/// Whether a command sent into the working directory is to be sent again
/// without the step into it: it failed, and by what it gave `cd` is missing.
pub open spec fn retries_bare(r: CommandResultView) -> bool {
    r.exit_status != 0 && says_missing_cd(r)
}

/// Where a change of directory stands.
#[derive(Debug, PartialEq, Eq)]
pub enum CdStage {
    /// The probe `cd <candidate> && pwd` is out.
    Probing { candidate: String },
    /// `cd` is missing; the check that `candidate` exists is out.
    Checking { candidate: String },
}

pub enum CdStageView {
    Probing { candidate: Seq<char> },
    Checking { candidate: Seq<char> },
}

impl View for CdStage {
    type V = CdStageView;

    open spec fn view(&self) -> CdStageView {
        match *self {
            CdStage::Probing { candidate } => CdStageView::Probing { candidate: candidate@ },
            CdStage::Checking { candidate } => CdStageView::Checking { candidate: candidate@ },
        }
    }
}

/// How a change of directory went on.
#[derive(Debug, PartialEq, Eq)]
pub enum CdStep {
    /// The remote host changed directory and printed where it stands: the
    /// working directory is now what it printed.
    Canonicalized,
    /// The remote host has no `cd`, and the candidate exists: the working
    /// directory is now the candidate as it was written, not resolved.
    DegradedLocal,
    /// The remote host has no `cd`: `command` is to be run, and its result
    /// handed over with `stage`.
    Check { stage: CdStage, command: String },
    /// The change failed with what the remote host gave; the working
    /// directory is as it was.
    Failed { exit_status: i32, stdout: String, stderr: String },
}

pub enum CdStepView {
    Canonicalized,
    DegradedLocal,
    Check { stage: CdStageView, command: Seq<char> },
    Failed { exit_status: i32, stdout: Seq<char>, stderr: Seq<char> },
}

impl View for CdStep {
    type V = CdStepView;

    open spec fn view(&self) -> CdStepView {
        match *self {
            CdStep::Canonicalized => CdStepView::Canonicalized,
            CdStep::DegradedLocal => CdStepView::DegradedLocal,
            CdStep::Check { stage, command } => CdStepView::Check {
                stage: stage@,
                command: command@,
            },
            CdStep::Failed { exit_status, stdout, stderr } => CdStepView::Failed {
                exit_status,
                stdout: stdout@,
                stderr: stderr@,
            },
        }
    }
}

/// The step that reports the failure of a change of directory.
pub open spec fn cd_failure(r: CommandResultView) -> CdStepView {
    CdStepView::Failed { exit_status: r.exit_status, stdout: r.stdout, stderr: r.stderr }
}

/// Whether the probe of a change of directory succeeded: it ended with status
/// zero and printed more than whitespace.
pub open spec fn probe_succeeded(r: CommandResultView) -> bool {
    r.exit_status == 0 && trimmed(r.stdout).len() > 0
}

/// How a change of directory goes on from `stage` on the result `r`.
pub open spec fn cd_step_of(stage: CdStageView, r: CommandResultView, stat_available: bool)
    -> CdStepView {
    match stage {
        CdStageView::Probing { candidate } => if probe_succeeded(r) {
            CdStepView::Canonicalized
        } else if says_missing_cd(r) {
            CdStepView::Check {
                stage: CdStageView::Checking { candidate },
                command: existence_check(candidate, stat_available),
            }
        } else {
            cd_failure(r)
        },
        CdStageView::Checking { candidate } => if r.exit_status == 0 {
            CdStepView::DegradedLocal
        } else {
            cd_failure(r)
        },
    }
}

/// The working directory after a step of a change of directory: the trimmed
/// output of the probe where the remote host confirmed the change, the
/// candidate where only its existence was confirmed, else what it was.
pub open spec fn cwd_after(cwd: Seq<char>, stage: CdStageView, r: CommandResultView) -> Seq<char> {
    match stage {
        CdStageView::Probing { candidate } => if probe_succeeded(r) {
            trimmed(r.stdout)
        } else {
            cwd
        },
        CdStageView::Checking { candidate } => if r.exit_status == 0 {
            candidate
        } else {
            cwd
        },
    }
}

/// A change of directory that the remote host confirms sets the working
/// directory to exactly what the remote host printed, trimmed; one that
/// fails leaves it as it was and is reported with what the remote host gave.
pub proof fn lemma_cd_settles(cwd: Seq<char>, candidate: Seq<char>, r: CommandResultView, stat: bool)
    ensures
        ({
            let stage = CdStageView::Probing { candidate };
            &&& probe_succeeded(r) ==> cwd_after(cwd, stage, r) == trimmed(r.stdout) && cd_step_of(
                stage,
                r,
                stat,
            ) == CdStepView::Canonicalized
            &&& !probe_succeeded(r) ==> cwd_after(cwd, stage, r) == cwd
            &&& !probe_succeeded(r) && !says_missing_cd(r) ==> cd_step_of(stage, r, stat)
                == cd_failure(r)
        }),
        ({
            let stage = CdStageView::Checking { candidate };
            &&& r.exit_status == 0 ==> cwd_after(cwd, stage, r) == candidate
            &&& r.exit_status != 0 ==> cwd_after(cwd, stage, r) == cwd && cd_step_of(stage, r, stat)
                == cd_failure(r)
        }),
{
}

/// Whether a command that was sent is to be sent again.
#[derive(Debug, PartialEq, Eq)]
pub enum RunVerdict {
    /// What the command gave stands.
    Done,
    /// `cd` is missing on the remote host: send `command`, the bare command,
    /// once, and let what it gives stand.
    RetryBare { command: String },
}

pub enum RunVerdictView {
    Done,
    RetryBare { command: Seq<char> },
}

impl View for RunVerdict {
    type V = RunVerdictView;

    open spec fn view(&self) -> RunVerdictView {
        match *self {
            RunVerdict::Done => RunVerdictView::Done,
            RunVerdict::RetryBare { command } => RunVerdictView::RetryBare { command: command@ },
        }
    }
}

/// The command that settles the working directory at the start of a session.
pub fn resolve_cwd_command() -> (r: String)
    ensures
        r@ == "pwd -P"@,
{
    "pwd -P".to_owned()
}

/// The command that finds out whether the remote host offers `stat`.
pub fn stat_probe_command() -> (r: String)
    ensures
        r@ == "stat /"@,
{
    "stat /".to_owned()
}

/// Whether the remote host offers `stat`, by what the probe for it gave: it
/// does where the probe ended with status zero.
pub fn stat_offered(result: &CommandResult) -> (r: bool)
    ensures
        r == (result@.exit_status == 0),
{
    result.exit_status == 0
}

/// The address to connect to.
pub fn connect_address(target: &Target) -> (r: String)
    ensures
        r@ == address_of(target@),
{
    proof {
        reveal_strlit(":");
    }
    let mut out = target.host.clone();
    out.append(":");
    out.append(target.port.as_str());
    out
}

/// The texts by which a remote host says that it has no `cd`.
pub fn signatures() -> (r: Vec<Vec<char>>)
    ensures
        r@.len() == missing_cd_signatures().len(),
        forall|i: int| 0 <= i < r@.len() ==> (#[trigger] r@[i])@ == missing_cd_signatures()[i],
{
    let mut out: Vec<Vec<char>> = Vec::new();
    out.push(chars_of("cd: not found"));
    out.push(chars_of("cd: command not found"));
    out.push(chars_of("\"cd\": executable file not found"));
    out
}

/// Whether what a command gave says that the remote host has no `cd`.
pub fn reports_missing_cd(result: &CommandResult) -> (r: bool)
    ensures
        r == says_missing_cd(result@),
{
    let mut text = result.stdout.clone();
    text.append(result.stderr.as_str());
    let hay = chars_of(text.as_str());
    let sigs = signatures();
    let n = sigs.len();
    let mut i: usize = 0;
    while i < n
        invariant
            i <= n,
            n == sigs@.len(),
            n == missing_cd_signatures().len(),
            hay@ == result@.stdout + result@.stderr,
            forall|k: int| 0 <= k < n ==> (#[trigger] sigs@[k])@ == missing_cd_signatures()[k],
            forall|k: int| 0 <= k < i ==> !contains(hay@, #[trigger] missing_cd_signatures()[k]),
        decreases n - i,
    {
        if contains_chars(&hay, &sigs[i]) {
            return true;
        }
        i += 1;
    }
    false
}

/// Whether a command that was sent into the working directory is to be sent
/// again without the step into it. `command` is the bare command.
pub fn after_run(command: &str, result: &CommandResult) -> (r: RunVerdict)
    ensures
        r@ == if retries_bare(result@) {
            RunVerdictView::RetryBare { command: command@ }
        } else {
            RunVerdictView::Done
        },
{
    if result.exit_status != 0 && reports_missing_cd(result) {
        RunVerdict::RetryBare { command: command.to_owned() }
    } else {
        RunVerdict::Done
    }
}

impl SSHClient {
    /// The session as it is believed at its start: the working directory is
    /// what `pwd -P` printed, trimmed.
    pub fn new(target: Target, stat_available: bool, pwd_output: &str) -> (r: SSHClient)
        ensures
            r@ == (SSHClientView {
                host_name: target@.host,
                user: target@.user,
                current_directory: trimmed(pwd_output@),
                port: target@.port,
                stat_available,
            }),
    {
        SSHClient {
            host_name: target.host,
            user: target.user,
            current_directory: trim(pwd_output),
            port: target.port,
            stat_available,
        }
    }

    /// The prompt of the shell.
    pub fn prompt(&self) -> (r: String)
        ensures
            r@ == prompt_of(self@),
    {
        proof {
            reveal_strlit("@");
            reveal_strlit(":");
        }
        let mut out = "trump > ".to_owned();
        out.append(self.user.as_str());
        out.append("@");
        out.append(self.host_name.as_str());
        out.append(":");
        out.append(self.port.as_str());
        out.append(" > ");
        out
    }

    /// The path that a change of directory towards `target` aims at.
    pub fn candidate_path(&self, target: &str) -> (r: String)
        ensures
            r@ == candidate_of(self@.current_directory, target@),
    {
        let t = chars_of(target);
        if t.len() > 0 && (t[0] == '/' || t[0] == '~') {
            return target.to_owned();
        }
        let c = chars_of(self.current_directory.as_str());
        if c.len() == 0 {
            return target.to_owned();
        }
        let mut out = self.current_directory.clone();
        if c[c.len() - 1] != '/' {
            proof {
                reveal_strlit("/");
            }
            out.append("/");
        }
        out.append(target);
        out
    }

    /// The command `command` sent into the working directory.
    pub fn with_cwd(&self, command: &str) -> (r: String)
        ensures
            r@ == in_directory(self@.current_directory, command@),
    {
        enter_then(self.current_directory.as_str(), command)
    }

    /// Begins a change of directory towards `target`: the stage, and the
    /// probe to run.
    pub fn begin_cd(&self, target: &str) -> (r: (CdStage, String))
        ensures
            r.0@ == (CdStageView::Probing {
                candidate: candidate_of(self@.current_directory, target@),
            }),
            r.1@ == cd_probe(candidate_of(self@.current_directory, target@)),
    {
        let candidate = self.candidate_path(target);
        let command = enter_then(candidate.as_str(), "pwd");
        (CdStage::Probing { candidate }, command)
    }

    /// Goes on with a change of directory on the result of the command that
    /// was run for `stage`. The working directory changes only where the
    /// remote host confirmed the change or, without `cd`, the candidate.
    pub fn cd_step(&mut self, stage: CdStage, result: &CommandResult) -> (r: CdStep)
        ensures
            r@ == cd_step_of(stage@, result@, old(self)@.stat_available),
            final(self)@ == (SSHClientView {
                current_directory: cwd_after(old(self)@.current_directory, stage@, result@),
                ..old(self)@
            }),
    {
        match stage {
            CdStage::Probing { candidate } => {
                let printed = trim(result.stdout.as_str());
                if result.exit_status == 0 && printed.as_str().unicode_len() > 0 {
                    self.current_directory = printed;
                    CdStep::Canonicalized
                } else if reports_missing_cd(result) {
                    let command = if self.stat_available {
                        let mut c = "stat ".to_owned();
                        c.append(candidate.as_str());
                        c
                    } else {
                        let mut c = "ls -d ".to_owned();
                        c.append(candidate.as_str());
                        c
                    };
                    CdStep::Check { stage: CdStage::Checking { candidate }, command }
                } else {
                    failure_of(result)
                }
            },
            CdStage::Checking { candidate } => {
                if result.exit_status == 0 {
                    self.current_directory = candidate;
                    CdStep::DegradedLocal
                } else {
                    failure_of(result)
                }
            },
        }
    }
}

/// The command `command` sent into the directory `directory`.
pub fn enter_then(directory: &str, command: &str) -> (r: String)
    ensures
        r@ == in_directory(directory@, command@),
{
    let mut out = "cd ".to_owned();
    out.append(directory);
    out.append(" && ");
    out.append(command);
    out
}

/// The step that reports the failure of a change of directory.
fn failure_of(result: &CommandResult) -> (r: CdStep)
    ensures
        r@ == cd_failure(result@),
{
    CdStep::Failed {
        exit_status: result.exit_status,
        stdout: result.stdout.clone(),
        stderr: result.stderr.clone(),
    }
}

} // verus!
