//! The orchestration state machine of a publishing run.
//!
//! A run validates the origin address, then issues a fixed sequence of
//! version-control commands: stage the pathspec, commit, optionally rename
//! the default branch, register the origin, and push with upstream
//! tracking.  The machine decides which command comes next and interprets
//! each command's outcome; actually spawning the external tool is the
//! caller's job, and the caller reports every outcome back.

use vstd::prelude::*;

use crate::errors::SetupError;
use crate::origin::is_github_origin;
use crate::origin::is_valid_origin;

verus! {

/// The configuration of one publishing run, read once from the invocation
/// arguments and never mutated.
pub struct Config {
    /// The remote origin address to register and push to.
    pub origin: String,
    /// The pathspec selecting which files are staged.
    pub pathspec: String,
    /// The message of the initial commit.
    pub commit_message: String,
    /// Keep the default branch name `master` instead of renaming to `main`.
    pub master: bool,
    /// Skip shape validation of the origin address.
    pub no_check: bool,
}

/// One invocation of the external version-control tool: the subcommand
/// followed by its arguments.
pub struct GitCommand {
    /// The full argument list; the first element is the subcommand name.
    pub args: Vec<String>,
}

impl View for GitCommand {
    type V = Seq<Seq<char>>;

    open spec fn view(&self) -> Seq<Seq<char>> {
        self.args.deep_view()
    }
}

impl DeepView for GitCommand {
    type V = Seq<Seq<char>>;

    open spec fn deep_view(&self) -> Seq<Seq<char>> {
        self.args.deep_view()
    }
}

impl Clone for GitCommand {
    fn clone(&self) -> (r: Self)
        ensures
            r@ == self@,
    {
        let mut args: Vec<String> = Vec::new();
        let mut i: usize = 0;
        while i < self.args.len()
            invariant
                i <= self.args.len(),
                args@ =~= self.args@.subrange(0, i as int),
            decreases self.args.len() - i,
        {
            args.push(self.args[i].clone());
            i += 1;
        }
        proof {
            assert(args@ =~= self.args@);
        }
        GitCommand { args }
    }
}

/// A run accepts its origin when validation is skipped or the address has
/// the accepted shape.
pub open spec fn origin_accepted(cfg: Config) -> bool {
    cfg.no_check || is_valid_origin(cfg.origin@)
}

/// The branch pushed upstream: the renamed default, unless the original
/// name is kept.
pub open spec fn branch_to_push(cfg: Config) -> Seq<char> {
    if cfg.master {
        "master"@
    } else {
        "main"@
    }
}

/// The exact command sequence of a run: stage, commit, optionally rename
/// the default branch, register the origin, push with upstream tracking.
pub open spec fn planned_commands(cfg: Config) -> Seq<Seq<Seq<char>>> {
    let stage = seq!["add"@, cfg.pathspec@];
    let commit = seq!["commit"@, "-m"@, cfg.commit_message@];
    let rename = seq!["branch"@, "-M"@, "main"@];
    let remote = seq!["remote"@, "add"@, "origin"@, cfg.origin@];
    let push = seq!["push"@, "-u"@, "origin"@, branch_to_push(cfg)];
    if cfg.master {
        seq![stage, commit, remote, push]
    } else {
        seq![stage, commit, rename, remote, push]
    }
}

/// Interprets the outcome of one invoked command, as the command runner
/// does: a zero exit status is success and yields nothing; a failing status
/// yields `CommandFailed` carrying the subcommand name and the captured
/// error-stream text, passed through unmodified.
pub fn command_outcome(sub_cmd: String, success: bool, stderr: String) -> (r: Result<
    (),
    SetupError,
>)
    ensures
        success <==> r is Ok,
        !success ==> (r matches Err(e) && e == SetupError::CommandFailed(sub_cmd, stderr)),
{
    if success {
        Ok(())
    } else {
        Err(SetupError::CommandFailed(sub_cmd, stderr))
    }
}

fn push_lit(args: &mut Vec<String>, s: &str)
    ensures
        final(args)@.len() == old(args)@.len() + 1,
        forall|i: int| 0 <= i < old(args)@.len() ==> final(args)@[i] == old(args)@[i],
        final(args)@[old(args)@.len() as int]@ == s@,
{
    let owned = String::from_str(s);
    args.push(owned);
}

fn plan_commands(cfg: &Config) -> (r: Vec<GitCommand>)
    ensures
        r.deep_view() == planned_commands(*cfg),
{
    let mut stage_args: Vec<String> = Vec::new();
    push_lit(&mut stage_args, "add");
    stage_args.push(cfg.pathspec.clone());
    let stage = GitCommand { args: stage_args };

    let mut commit_args: Vec<String> = Vec::new();
    push_lit(&mut commit_args, "commit");
    push_lit(&mut commit_args, "-m");
    commit_args.push(cfg.commit_message.clone());
    let commit = GitCommand { args: commit_args };

    let mut remote_args: Vec<String> = Vec::new();
    push_lit(&mut remote_args, "remote");
    push_lit(&mut remote_args, "add");
    push_lit(&mut remote_args, "origin");
    remote_args.push(cfg.origin.clone());
    let remote = GitCommand { args: remote_args };

    let mut push_args: Vec<String> = Vec::new();
    push_lit(&mut push_args, "push");
    push_lit(&mut push_args, "-u");
    push_lit(&mut push_args, "origin");
    if cfg.master {
        push_lit(&mut push_args, "master");
    } else {
        push_lit(&mut push_args, "main");
    }
    let push = GitCommand { args: push_args };

    let mut cmds: Vec<GitCommand> = Vec::new();
    cmds.push(stage);
    cmds.push(commit);
    if !cfg.master {
        let mut rename_args: Vec<String> = Vec::new();
        push_lit(&mut rename_args, "branch");
        push_lit(&mut rename_args, "-M");
        push_lit(&mut rename_args, "main");
        let rename = GitCommand { args: rename_args };
        cmds.push(rename);
    }
    cmds.push(remote);
    cmds.push(push);
    proof {
        assert(cmds.deep_view() =~~= planned_commands(*cfg));
    }
    cmds
}

/// The state of one publishing run: the planned command sequence, how many
/// commands have succeeded so far, and the first failure, if any.
///
/// The run advances strictly in sequence.  Once a failure is recorded, no
/// further command is ever issued: the first failure aborts the run, and
/// partial external state is left as-is.
pub struct Session {
    commands: Vec<GitCommand>,
    next: usize,
    failure: Option<SetupError>,
}

impl Session {
    /// The planned command sequence, fixed at the start of the run.
    pub closed spec fn plan(self) -> Seq<Seq<Seq<char>>> {
        self.commands.deep_view()
    }

    /// How many commands of the plan have completed successfully.
    pub closed spec fn issued(self) -> int {
        self.next as int
    }

    /// Whether a failure has been recorded.
    pub closed spec fn failed(self) -> bool {
        self.failure is Some
    }

    /// The recorded failure, if any.
    pub closed spec fn recorded_failure(self) -> Option<SetupError> {
        self.failure
    }

    /// Internal consistency: progress stays within the plan, and every
    /// planned command has at least a subcommand name.
    pub closed spec fn wf(self) -> bool {
        &&& self.next as int <= self.plan().len()
        &&& forall|i: int| 0 <= i < self.plan().len() ==> (#[trigger] self.plan()[i]).len() > 0
    }

    /// Begins a run: validates the origin address unless validation is
    /// skipped, and fixes the command plan.  Rejection happens before any
    /// external command, so a rejected run changes no external state.
    pub fn start(cfg: &Config) -> (r: Result<Session, SetupError>)
        ensures
            r is Ok <==> origin_accepted(*cfg),
            r matches Ok(s) ==> s.wf() && s.plan() == planned_commands(*cfg) && s.issued() == 0
                && !s.failed(),
            r matches Err(e) ==> (e matches SetupError::InvalidOrigin(a) && a@ == cfg.origin@),
    {
        if !cfg.no_check {
            let ok = is_github_origin(cfg.origin.as_str());
            if !ok {
                return Err(SetupError::InvalidOrigin(cfg.origin.clone()));
            }
        }
        let commands = plan_commands(cfg);
        let s = Session { commands, next: 0, failure: None };
        proof {
            assert forall|i: int| 0 <= i < s.plan().len() implies (#[trigger] s.plan()[i]).len()
                > 0 by {
                assert(planned_commands(*cfg)[i].len() > 0);
            }
        }
        Ok(s)
    }

    /// The next command to run, or `None` when the run has failed or every
    /// planned command has succeeded.  A failed run issues no further
    /// command.
    pub fn next_command(&self) -> (r: Option<GitCommand>)
        requires
            self.wf(),
        ensures
            r is Some <==> (!self.failed() && self.issued() < self.plan().len()),
            r matches Some(c) ==> c@ == self.plan()[self.issued()],
    {
        if self.failure.is_some() {
            return None;
        }
        if self.next >= self.commands.len() {
            return None;
        }
        let c = self.commands[self.next].clone();
        Some(c)
    }

    /// Reports the outcome of the command last handed out: on success the
    /// run moves to the next planned command; on failure it records
    /// `CommandFailed` with that command's subcommand name and the captured
    /// error-stream text, and stops.
    pub fn advance(&mut self, success: bool, stderr: String)
        requires
            old(self).wf(),
            !old(self).failed(),
            old(self).issued() < old(self).plan().len(),
        ensures
            final(self).wf(),
            final(self).plan() == old(self).plan(),
            success ==> final(self).issued() == old(self).issued() + 1 && !final(self).failed(),
            !success ==> {
                &&& final(self).issued() == old(self).issued()
                &&& final(self).failed()
                &&& final(self).recorded_failure() matches Some(e)
                    && e matches SetupError::CommandFailed(c, d)
                    && c@ == old(self).plan()[old(self).issued()][0]
                    && d@ == stderr@
            },
    {
        // An executable length read bounds the plan's length by usize::MAX,
        // which the increment below needs.
        let _n: usize = self.commands.len();
        proof {
            assert(self.commands.deep_view().len() == self.commands@.len());
            assert(self.commands.deep_view()[self.next as int] == self.commands@[self.next as int].deep_view());
        }
        let sub_cmd = self.commands[self.next].args[0].clone();
        match command_outcome(sub_cmd, success, stderr) {
            Ok(()) => {
                self.next = self.next + 1;
            },
            Err(e) => {
                self.failure = Some(e);
            },
        }
    }

    /// The final outcome of a finished run: the recorded failure, or
    /// success when every planned command succeeded.
    pub fn into_result(self) -> (r: Result<(), SetupError>)
        requires
            self.failed() || self.issued() == self.plan().len(),
        ensures
            self.failed() ==> (r matches Err(e) && Some(e) == self.recorded_failure()),
            !self.failed() ==> r is Ok,
    {
        match self.failure {
            Some(e) => Err(e),
            None => Ok(()),
        }
    }
}

} // verus!
