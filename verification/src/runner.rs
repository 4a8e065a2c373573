use vstd::prelude::*;
use vstd::string::*;

use crate::error::DerpyError;
use crate::log::Log;
use crate::{VcsCommand, VcsCommandList};

verus! {

/// subprocess::Popen: a spawned child process.
#[verifier::external_type_specification]
#[verifier::external_body]
pub struct ExPopen(subprocess::Popen);

/// subprocess::ExitStatus: how a child process terminated.
#[verifier::external_type_specification]
#[verifier::external_body]
pub struct ExExitStatus(subprocess::ExitStatus);

/// Relies on subprocess::Popen::create: spawns `argv` with standard output
/// and standard error piped, in the directory `cwd` when one is given and in
/// the caller's current directory otherwise.
#[verifier::external_body]
fn popen_create(argv: &Vec<String>, cwd: &Option<String>) -> (r: Result<subprocess::Popen, String>) {
    let config = subprocess::PopenConfig {
        stdout: subprocess::Redirection::Pipe,
        stderr: subprocess::Redirection::Pipe,
        cwd: cwd.as_ref().map(|d| d.as_str().into()),
        ..Default::default()
    };
    subprocess::Popen::create(argv, config).map_err(|e| format!("{}", e))
}

/// Relies on subprocess::Popen::communicate: reads the piped standard output
/// and standard error to their end, as text.
#[verifier::external_body]
fn popen_communicate(p: &mut subprocess::Popen) -> (r: Result<(String, String), String>) {
    match p.communicate(None) {
        Ok((out, err)) => Ok((out.unwrap_or_default(), err.unwrap_or_default())),
        Err(e) => Err(format!("{}", e)),
    }
}

/// Relies on subprocess::Popen::wait: waits for the child to terminate and
/// reports its exit status.
#[verifier::external_body]
fn popen_wait(p: &mut subprocess::Popen) -> (r: Result<subprocess::ExitStatus, String>) {
    p.wait().map_err(|e| format!("{}", e))
}

/// Relies on subprocess::ExitStatus::success: true exactly when the child
/// exited normally with code zero.
pub assume_specification[ subprocess::ExitStatus::success ](s: subprocess::ExitStatus) -> bool;

/// Relies on subprocess::ExitStatus's Debug form: a readable label of how
/// the child terminated.
#[verifier::external_body]
fn exit_status_label(s: &subprocess::ExitStatus) -> (r: String) {
    format!("{:?}", s)
}

/// Everything one launched command came back with.
#[derive(Debug, Clone, PartialEq)]
pub enum RawRunResult {
    /// The child ran to termination; `success` is what its exit status
    /// reported, `status` a readable label of that status.
    Completed { success: bool, status: String, stdout: String, stderr: String },
    /// The child could not be launched or communicated with.
    LaunchFailed { message: String },
}

/// One command the runner executed: the tokens as launched, the directory
/// the child ran in (the caller's own when absent), and what came back.
#[derive(Debug, Clone, PartialEq)]
pub struct CmdRecord {
    pub argv: VcsCommand,
    pub cwd: Option<String>,
    pub outcome: RawRunResult,
}

/// The record launched `argv` in `cwd`.
pub open spec fn rec_for(rec: CmdRecord, argv: Seq<Seq<char>>, cwd: Option<Seq<char>>) -> bool {
    rec.argv.deep_view() == argv && rec.cwd.deep_view() == cwd
}

/// The recorded child terminated successfully.
pub open spec fn rec_success(rec: CmdRecord) -> bool {
    match rec.outcome {
        RawRunResult::Completed { success, .. } => success,
        RawRunResult::LaunchFailed { .. } => false,
    }
}

pub open spec fn rec_stdout(rec: CmdRecord) -> Seq<char> {
    match rec.outcome {
        RawRunResult::Completed { stdout, .. } => stdout@,
        RawRunResult::LaunchFailed { .. } => Seq::empty(),
    }
}

pub open spec fn rec_stderr(rec: CmdRecord) -> Seq<char> {
    match rec.outcome {
        RawRunResult::Completed { stderr, .. } => stderr@,
        RawRunResult::LaunchFailed { .. } => Seq::empty(),
    }
}

/// The error a failed record surfaces: for a non-zero exit, the command with
/// its status label and both captured streams; for a launch failure, the
/// command with the failure's message.
pub open spec fn is_run_failure(e: DerpyError, rec: CmdRecord) -> bool {
    match rec.outcome {
        RawRunResult::Completed { success, status, stdout, stderr } => !success && match e {
            DerpyError::VcsCommandFailed { cmd, return_code, stdout: so, stderr: se } => {
                &&& cmd.deep_view() == rec.argv.deep_view()
                &&& return_code@ == status@
                &&& so@ == stdout@
                &&& se@ == stderr@
            },
            _ => false,
        },
        RawRunResult::LaunchFailed { message } => match e {
            DerpyError::SubprocessError { cmd, message: m } => {
                cmd.deep_view() == rec.argv.deep_view() && m@ == message@
            },
            _ => false,
        },
    }
}

/// A copy of a command, token for token.
fn clone_cmd(cmd: &VcsCommand) -> (r: VcsCommand)
    ensures
        r.deep_view() == cmd.deep_view(),
{
    let mut r: VcsCommand = Vec::new();
    let n = cmd.len();
    for i in 0..n
        invariant
            n == cmd@.len(),
            r@.len() == i,
            forall|j: int| 0 <= j < i ==> r@[j]@ == cmd@[j]@,
    {
        r.push(cmd[i].clone());
    }
    proof {
        assert(r.deep_view() =~= cmd.deep_view());
    }
    r
}

fn clone_opt_string(s: &Option<String>) -> (r: Option<String>)
    ensures
        r.deep_view() == s.deep_view(),
{
    match s {
        Some(text) => Some(text.clone()),
        None => None,
    }
}

/// Joins the tokens of a command into one progress line.
fn describe_cmd(prefix: &str, cmd: &VcsCommand) -> (r: String) {
    let mut r = prefix.to_owned();
    let n = cmd.len();
    for i in 0..n
        invariant
            n == cmd@.len(),
    {
        r.append(" ");
        r.append(cmd[i].as_str());
    }
    r
}

/// Launches one command and gathers everything it came back with.
fn run_raw(argv: &VcsCommand, cwd: &Option<String>) -> RawRunResult {
    let mut p = match popen_create(argv, cwd) {
        Ok(p) => p,
        Err(message) => {
            return RawRunResult::LaunchFailed { message };
        },
    };
    let (stdout, stderr) = match popen_communicate(&mut p) {
        Ok(streams) => streams,
        Err(message) => {
            return RawRunResult::LaunchFailed { message };
        },
    };
    match popen_wait(&mut p) {
        Ok(st) => {
            let status = exit_status_label(&st);
            let success = st.success();
            RawRunResult::Completed { success, status, stdout, stderr }
        },
        Err(message) => RawRunResult::LaunchFailed { message },
    }
}

/// Launches backend commands and records every launch, in order. The record
/// is what contracts and tests read to see which commands an operation ran.
pub struct Runner {
    pub history: Vec<CmdRecord>,
}

impl Runner {
    pub fn new() -> (r: Runner)
        ensures
            r.history@ == Seq::<CmdRecord>::empty(),
    {
        Runner { history: Vec::new() }
    }

    /// Runs one already-expanded command and records it. A non-zero exit is
    /// classified as VcsCommandFailed with both captured streams; a child
    /// that could not be launched or read, as SubprocessError.
    pub fn run_cmd(&mut self, log: &Log, cmd: &VcsCommand, cwd: &Option<String>) -> (r: Result<
        (String, String),
        DerpyError,
    >)
        ensures
            final(self).history@ == old(self).history@.push(final(self).history@.last()),
            final(self).history@.len() == old(self).history@.len() + 1,
            rec_for(final(self).history@.last(), cmd.deep_view(), cwd.deep_view()),
            r is Ok <==> rec_success(final(self).history@.last()),
            r is Ok ==> r->Ok_0.0@ == rec_stdout(final(self).history@.last())
                && r->Ok_0.1@ == rec_stderr(final(self).history@.last()),
            r is Err ==> is_run_failure(r->Err_0, final(self).history@.last()),
    {
        log.info(describe_cmd("running command:", cmd));
        let outcome = run_raw(cmd, cwd);
        let r: Result<(String, String), DerpyError> = match &outcome {
            RawRunResult::Completed { success, status, stdout, stderr } => {
                if *success {
                    Ok((stdout.clone(), stderr.clone()))
                } else {
                    Err(DerpyError::VcsCommandFailed {
                        cmd: clone_cmd(cmd),
                        return_code: status.clone(),
                        stdout: stdout.clone(),
                        stderr: stderr.clone(),
                    })
                }
            },
            RawRunResult::LaunchFailed { message } => Err(DerpyError::SubprocessError {
                cmd: clone_cmd(cmd),
                message: message.clone(),
            }),
        };
        self.history.push(CmdRecord { argv: clone_cmd(cmd), cwd: clone_opt_string(cwd), outcome });
        r
    }

    /// Runs a command list in order, commitment-per-command: the first
    /// failure aborts the commands after it; the ones already run stay run.
    pub fn run_cmd_sequence(&mut self, log: &Log, sequence: &VcsCommandList, cwd: &Option<
        String,
    >) -> (r: Result<(), DerpyError>)
        ensures
            seq_run_post(
                old(self).history@,
                final(self).history@,
                sequence.deep_view(),
                cwd.deep_view(),
                r,
            ),
    {
        let n = sequence.len();
        for idx in 0..n
            invariant
                n == sequence@.len(),
                self.history@.len() == old(self).history@.len() + idx,
                self.history@.subrange(0, old(self).history@.len() as int) == old(self).history@,
                forall|i: int|
                    0 <= i < idx ==> rec_for(
                        #[trigger] self.history@[old(self).history@.len() + i],
                        sequence@[i].deep_view(),
                        cwd.deep_view(),
                    ) && rec_success(self.history@[old(self).history@.len() + i]),
        {
            match self.run_cmd(log, &sequence[idx], cwd) {
                Ok(_) => {
                    proof {
                        assert(self.history@.subrange(0, old(self).history@.len() as int)
                            =~= old(self).history@);
                    }
                },
                Err(e) => {
                    proof {
                        assert(self.history@.subrange(0, old(self).history@.len() as int)
                            =~= old(self).history@);
                        assert(seq_run_post(
                            old(self).history@,
                            self.history@,
                            sequence.deep_view(),
                            cwd.deep_view(),
                            Err::<(), DerpyError>(e),
                        )) by {
                            let k = idx as int;
                            assert(self.history@.len() == old(self).history@.len() + k + 1);
                            assert(rec_for(
                                self.history@[old(self).history@.len() + k],
                                sequence.deep_view()[k],
                                cwd.deep_view(),
                            ));
                        }
                    }
                    return Err(e);
                },
            }
        }
        Ok(())
    }
}

/// How a finished sequence run left the history: the records already there
/// are kept; on success one successful record per command was appended, in
/// order; on failure the records up to and including the first failing
/// command were appended, and the error reports that failing record.
pub open spec fn seq_run_post(
    h0: Seq<CmdRecord>,
    h1: Seq<CmdRecord>,
    cmds: Seq<Seq<Seq<char>>>,
    cwd: Option<Seq<char>>,
    r: Result<(), DerpyError>,
) -> bool {
    &&& h0.len() <= h1.len()
    &&& h1.subrange(0, h0.len() as int) == h0
    &&& match r {
        Ok(_) => {
            &&& h1.len() == h0.len() + cmds.len()
            &&& forall|i: int|
                0 <= i < cmds.len() ==> rec_for(
                    #[trigger] h1[h0.len() + i],
                    cmds[i],
                    cwd,
                ) && rec_success(h1[h0.len() + i])
        },
        Err(e) => exists|k: int|
            #![auto]
            {
                &&& 0 <= k < cmds.len()
                &&& h1.len() == h0.len() + k + 1
                &&& forall|i: int|
                    0 <= i < k ==> rec_for(#[trigger] h1[h0.len() + i], cmds[i], cwd)
                        && rec_success(h1[h0.len() + i])
                &&& rec_for(h1[h0.len() + k], cmds[k], cwd)
                &&& !rec_success(h1[h0.len() + k])
                &&& is_run_failure(e, h1[h0.len() + k])
            },
    }
}

} // verus!
