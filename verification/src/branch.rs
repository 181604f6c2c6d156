//! The branch-divergence analyzer.
//!
//! A divergence query is a short state machine: a best-effort fetch, the
//! base-reference fallback chain (remote default branch, then conventional
//! remote-tracking names, then conventional local names), an ahead-count,
//! and an ancestor check. The caller runs each invocation and feeds the
//! outcome back; every decision between invocations is made here.

use vstd::prelude::*;
use crate::bytes::{spec_trim, spec_parse_i64, trim_ascii, parse_i64};
use crate::text::{lossy_of, lossy_string};
use crate::run::{
    CmdSpec, CmdModel, Program, ProgramModel, RunOutcome, OutcomeModel, arg, prefixed, git_in,
};

verus! {

/// The answer of a divergence query: `merged` when the branch tip is an
/// ancestor of the base, `diverged` when the branch holds commits the base
/// cannot reach.
#[derive(Clone, Copy, Debug, PartialEq, Eq, Structural)]
pub struct BranchStatus {
    pub merged: bool,
    pub diverged: bool,
}

/// Where a divergence query stands between invocations.
pub enum StatusState {
    /// The best-effort fetch is running; its outcome is discarded.
    Fetching,
    /// The remote's recorded default branch is being read.
    DefaultBranch,
    /// Conventional base candidate `idx` is being probed for existence.
    Probe { idx: usize },
    /// The commits ahead of `base` are being counted.
    CountAhead { base: String },
    /// The ancestor check against `base` is running.
    Ancestor { base: String, diverged: bool },
}

/// Spec-level image of a [`StatusState`].
#[verifier::ext_equal]
pub enum StatusStateModel {
    Fetching,
    DefaultBranch,
    Probe { idx: int },
    CountAhead { base: Seq<char> },
    Ancestor { base: Seq<char>, diverged: bool },
}

impl View for StatusState {
    type V = StatusStateModel;

    open spec fn view(&self) -> StatusStateModel {
        match self {
            StatusState::Fetching => StatusStateModel::Fetching,
            StatusState::DefaultBranch => StatusStateModel::DefaultBranch,
            StatusState::Probe { idx } => StatusStateModel::Probe { idx: *idx as int },
            StatusState::CountAhead { base } => StatusStateModel::CountAhead { base: base@ },
            StatusState::Ancestor { base, diverged } => StatusStateModel::Ancestor {
                base: base@,
                diverged: *diverged,
            },
        }
    }
}

/// What the machine asks for next: run another invocation, or stop with
/// the answer.
pub enum StatusStep {
    Run(CmdSpec, StatusState),
    Done(Result<BranchStatus, String>),
}

/// Spec-level image of a [`StatusStep`].
#[verifier::ext_equal]
pub enum StatusStepModel {
    Run(CmdModel, StatusStateModel),
    Done(Result<BranchStatus, Seq<char>>),
}

impl View for StatusStep {
    type V = StatusStepModel;

    open spec fn view(&self) -> StatusStepModel {
        match self {
            StatusStep::Run(c, s) => StatusStepModel::Run(c@, s@),
            StatusStep::Done(r) => StatusStepModel::Done(
                match r {
                    Ok(b) => Ok(*b),
                    Err(e) => Err(e@),
                },
            ),
        }
    }
}

/// The conventional base candidates, remote-tracking first: the short name
/// reported to later steps.
pub open spec fn candidate_name(i: int) -> Seq<char> {
    if i == 0 {
        "origin/main"@
    } else if i == 1 {
        "origin/master"@
    } else if i == 2 {
        "origin/develop"@
    } else if i == 3 {
        "main"@
    } else if i == 4 {
        "master"@
    } else {
        "develop"@
    }
}

/// The full reference probed for each candidate.
pub open spec fn candidate_ref(i: int) -> Seq<char> {
    if i == 0 {
        "refs/remotes/origin/main"@
    } else if i == 1 {
        "refs/remotes/origin/master"@
    } else if i == 2 {
        "refs/remotes/origin/develop"@
    } else if i == 3 {
        "refs/heads/main"@
    } else if i == 4 {
        "refs/heads/master"@
    } else {
        "refs/heads/develop"@
    }
}

fn candidate_name_at(i: usize) -> (r: String)
    requires
        i < 6,
    ensures
        r@ == candidate_name(i as int),
{
    if i == 0 {
        arg("origin/main")
    } else if i == 1 {
        arg("origin/master")
    } else if i == 2 {
        arg("origin/develop")
    } else if i == 3 {
        arg("main")
    } else if i == 4 {
        arg("master")
    } else {
        arg("develop")
    }
}

fn candidate_ref_at(i: usize) -> (r: String)
    requires
        i < 6,
    ensures
        r@ == candidate_ref(i as int),
{
    if i == 0 {
        arg("refs/remotes/origin/main")
    } else if i == 1 {
        arg("refs/remotes/origin/master")
    } else if i == 2 {
        arg("refs/remotes/origin/develop")
    } else if i == 3 {
        arg("refs/heads/main")
    } else if i == 4 {
        arg("refs/heads/master")
    } else {
        arg("refs/heads/develop")
    }
}

/// The best-effort fetch of the remote.
pub open spec fn fetch_model(repo: Seq<char>) -> CmdModel {
    CmdModel { program: ProgramModel::Git, args: seq!["fetch"@, "origin"@], cwd: Some(repo) }
}

pub fn fetch_cmd(repo: &str) -> (c: CmdSpec)
    ensures
        c@ =~~= fetch_model(repo@),
{
    let mut args: Vec<String> = Vec::new();
    args.push(arg("fetch"));
    args.push(arg("origin"));
    git_in(repo, args)
}

/// The read of the remote's recorded default branch.
pub open spec fn symbolic_ref_model(repo: Seq<char>) -> CmdModel {
    CmdModel {
        program: ProgramModel::Git,
        args: seq!["symbolic-ref"@, "--quiet"@, "--short"@, "refs/remotes/origin/HEAD"@],
        cwd: Some(repo),
    }
}

fn symbolic_ref_cmd(repo: &str) -> (c: CmdSpec)
    ensures
        c@ =~~= symbolic_ref_model(repo@),
{
    let mut args: Vec<String> = Vec::new();
    args.push(arg("symbolic-ref"));
    args.push(arg("--quiet"));
    args.push(arg("--short"));
    args.push(arg("refs/remotes/origin/HEAD"));
    git_in(repo, args)
}

/// The existence probe of one reference.
pub open spec fn show_ref_model(repo: Seq<char>, reference: Seq<char>) -> CmdModel {
    CmdModel {
        program: ProgramModel::Git,
        args: seq!["show-ref"@, "--verify"@, "--quiet"@, reference],
        cwd: Some(repo),
    }
}

fn show_ref_cmd(repo: &str, reference: String) -> (c: CmdSpec)
    ensures
        c@ =~~= show_ref_model(repo@, reference@),
{
    let mut args: Vec<String> = Vec::new();
    args.push(arg("show-ref"));
    args.push(arg("--verify"));
    args.push(arg("--quiet"));
    args.push(reference);
    git_in(repo, args)
}

/// The count of commits reachable from `branch` but not from `base`.
pub open spec fn rev_list_model(repo: Seq<char>, base: Seq<char>, branch: Seq<char>) -> CmdModel {
    CmdModel {
        program: ProgramModel::Git,
        args: seq!["rev-list"@, "--count"@, base + ".."@ + branch],
        cwd: Some(repo),
    }
}

fn rev_list_cmd(repo: &str, base: &str, branch: &str) -> (c: CmdSpec)
    ensures
        c@ =~~= rev_list_model(repo@, base@, branch@),
{
    let mut range = base.to_owned();
    range.append("..");
    range.append(branch);
    let mut args: Vec<String> = Vec::new();
    args.push(arg("rev-list"));
    args.push(arg("--count"));
    args.push(range);
    git_in(repo, args)
}

/// The check whether `branch` is an ancestor of `base`.
pub open spec fn merge_base_model(repo: Seq<char>, branch: Seq<char>, base: Seq<char>) -> CmdModel {
    CmdModel {
        program: ProgramModel::Git,
        args: seq!["merge-base"@, "--is-ancestor"@, branch, base],
        cwd: Some(repo),
    }
}

fn merge_base_cmd(repo: &str, branch: &str, base: &str) -> (c: CmdSpec)
    ensures
        c@ =~~= merge_base_model(repo@, branch@, base@),
{
    let mut args: Vec<String> = Vec::new();
    args.push(arg("merge-base"));
    args.push(arg("--is-ancestor"));
    args.push(arg(branch));
    args.push(arg(base));
    git_in(repo, args)
}

/// The ahead count a rev-list output denotes; unparseable output counts
/// as zero.
pub open spec fn spec_ahead_count(stdout: Seq<u8>) -> int {
    match spec_parse_i64(spec_trim(stdout)) {
        Some(v) => v as int,
        None => 0,
    }
}

/// One transition of the divergence machine.
pub open spec fn spec_status_step(
    repo: Seq<char>,
    branch: Seq<char>,
    st: StatusStateModel,
    o: OutcomeModel,
) -> StatusStepModel {
    match st {
        StatusStateModel::Fetching => StatusStepModel::Run(
            symbolic_ref_model(repo),
            StatusStateModel::DefaultBranch,
        ),
        StatusStateModel::DefaultBranch => match o {
            OutcomeModel::NotFound { message } => StatusStepModel::Done(
                Err("Failed to execute git symbolic-ref: "@ + message),
            ),
            OutcomeModel::Failed { message } => StatusStepModel::Done(
                Err("Failed to execute git symbolic-ref: "@ + message),
            ),
            OutcomeModel::Exited { success, stdout, .. } => {
                if success && spec_trim(stdout).len() > 0 {
                    let base = lossy_of(spec_trim(stdout));
                    StatusStepModel::Run(
                        rev_list_model(repo, base, branch),
                        StatusStateModel::CountAhead { base },
                    )
                } else {
                    StatusStepModel::Run(
                        show_ref_model(repo, candidate_ref(0)),
                        StatusStateModel::Probe { idx: 0 },
                    )
                }
            },
        },
        StatusStateModel::Probe { idx } => match o {
            OutcomeModel::NotFound { message } => StatusStepModel::Done(
                Err("Failed to execute git show-ref: "@ + message),
            ),
            OutcomeModel::Failed { message } => StatusStepModel::Done(
                Err("Failed to execute git show-ref: "@ + message),
            ),
            OutcomeModel::Exited { success, .. } => {
                if success {
                    StatusStepModel::Run(
                        rev_list_model(repo, candidate_name(idx), branch),
                        StatusStateModel::CountAhead { base: candidate_name(idx) },
                    )
                } else if idx + 1 < 6 {
                    StatusStepModel::Run(
                        show_ref_model(repo, candidate_ref(idx + 1)),
                        StatusStateModel::Probe { idx: idx + 1 },
                    )
                } else {
                    StatusStepModel::Done(Ok(BranchStatus { merged: false, diverged: false }))
                }
            },
        },
        StatusStateModel::CountAhead { base } => match o {
            OutcomeModel::NotFound { message } => StatusStepModel::Done(
                Err("Failed to execute git rev-list: "@ + message),
            ),
            OutcomeModel::Failed { message } => StatusStepModel::Done(
                Err("Failed to execute git rev-list: "@ + message),
            ),
            OutcomeModel::Exited { success, stdout, stderr, .. } => {
                if !success {
                    StatusStepModel::Done(
                        Err("Failed to compute branch ahead count: "@ + lossy_of(stderr)),
                    )
                } else {
                    StatusStepModel::Run(
                        merge_base_model(repo, branch, base),
                        StatusStateModel::Ancestor { base, diverged: spec_ahead_count(stdout) > 0 },
                    )
                }
            },
        },
        StatusStateModel::Ancestor { diverged, .. } => match o {
            OutcomeModel::NotFound { message } => StatusStepModel::Done(
                Err("Failed to execute git merge-base: "@ + message),
            ),
            OutcomeModel::Failed { message } => StatusStepModel::Done(
                Err("Failed to execute git merge-base: "@ + message),
            ),
            OutcomeModel::Exited { success, .. } => StatusStepModel::Done(
                Ok(BranchStatus { merged: success, diverged }),
            ),
        },
    }
}

/// Starts a divergence query: the machine first fetches the remote, best
/// effort.
pub fn get_branch_status(repo_path: &str, branch: &str) -> (r: (CmdSpec, StatusState))
    ensures
        r.0@ =~~= fetch_model(repo_path@),
        r.1@ == StatusStateModel::Fetching,
{
    (fetch_cmd(repo_path), StatusState::Fetching)
}

/// Drives the divergence machine one transition: interprets the previous
/// invocation's outcome and yields the next invocation or the answer.
pub fn branch_status_step(
    repo_path: &str,
    branch: &str,
    state: StatusState,
    outcome: &RunOutcome,
) -> (r: StatusStep)
    ensures
        r@ =~~= spec_status_step(repo_path@, branch@, state@, outcome@),
{
    match state {
        StatusState::Fetching => StatusStep::Run(
            symbolic_ref_cmd(repo_path),
            StatusState::DefaultBranch,
        ),
        StatusState::DefaultBranch => match outcome {
            RunOutcome::NotFound { message } => StatusStep::Done(
                Err(prefixed("Failed to execute git symbolic-ref: ", message.as_str())),
            ),
            RunOutcome::Failed { message } => StatusStep::Done(
                Err(prefixed("Failed to execute git symbolic-ref: ", message.as_str())),
            ),
            RunOutcome::Exited { success, stdout, .. } => {
                let t = trim_ascii(stdout.as_slice());
                if *success && t.len() > 0 {
                    let base = lossy_string(t.as_slice());
                    let cmd = rev_list_cmd(repo_path, base.as_str(), branch);
                    StatusStep::Run(cmd, StatusState::CountAhead { base })
                } else {
                    StatusStep::Run(
                        show_ref_cmd(repo_path, candidate_ref_at(0)),
                        StatusState::Probe { idx: 0 },
                    )
                }
            },
        },
        StatusState::Probe { idx } => match outcome {
            RunOutcome::NotFound { message } => StatusStep::Done(
                Err(prefixed("Failed to execute git show-ref: ", message.as_str())),
            ),
            RunOutcome::Failed { message } => StatusStep::Done(
                Err(prefixed("Failed to execute git show-ref: ", message.as_str())),
            ),
            RunOutcome::Exited { success, .. } => {
                if *success {
                    let i = if idx < 6 {
                        idx
                    } else {
                        5
                    };
                    proof {
                        if idx >= 6 {
                            assert(candidate_name(idx as int) == candidate_name(5));
                        }
                    }
                    let base = candidate_name_at(i);
                    let cmd = rev_list_cmd(repo_path, base.as_str(), branch);
                    StatusStep::Run(cmd, StatusState::CountAhead { base })
                } else if idx < 5 {
                    StatusStep::Run(
                        show_ref_cmd(repo_path, candidate_ref_at(idx + 1)),
                        StatusState::Probe { idx: idx + 1 },
                    )
                } else {
                    StatusStep::Done(Ok(BranchStatus { merged: false, diverged: false }))
                }
            },
        },
        StatusState::CountAhead { base } => match outcome {
            RunOutcome::NotFound { message } => StatusStep::Done(
                Err(prefixed("Failed to execute git rev-list: ", message.as_str())),
            ),
            RunOutcome::Failed { message } => StatusStep::Done(
                Err(prefixed("Failed to execute git rev-list: ", message.as_str())),
            ),
            RunOutcome::Exited { success, stdout, stderr, .. } => {
                if !*success {
                    let tail = lossy_string(stderr.as_slice());
                    StatusStep::Done(
                        Err(prefixed("Failed to compute branch ahead count: ", tail.as_str())),
                    )
                } else {
                    let t = trim_ascii(stdout.as_slice());
                    let n: i64 = match parse_i64(t.as_slice()) {
                        Some(v) => v,
                        None => 0,
                    };
                    let cmd = merge_base_cmd(repo_path, branch, base.as_str());
                    StatusStep::Run(cmd, StatusState::Ancestor { base, diverged: n > 0 })
                }
            },
        },
        StatusState::Ancestor { base, diverged } => match outcome {
            RunOutcome::NotFound { message } => StatusStep::Done(
                Err(prefixed("Failed to execute git merge-base: ", message.as_str())),
            ),
            RunOutcome::Failed { message } => StatusStep::Done(
                Err(prefixed("Failed to execute git merge-base: ", message.as_str())),
            ),
            RunOutcome::Exited { success, .. } => StatusStep::Done(
                Ok(BranchStatus { merged: *success, diverged }),
            ),
        },
    }
}

/// When no base reference resolves, the query answers cleanly: not merged,
/// not diverged, and no error.
pub proof fn lemma_no_base_ref_is_clean(
    repo: Seq<char>,
    branch: Seq<char>,
    o: OutcomeModel,
)
    requires
        o matches OutcomeModel::Exited { success: false, .. },
    ensures
        spec_status_step(repo, branch, StatusStateModel::Probe { idx: 5 }, o)
            == StatusStepModel::Done(
            Ok::<BranchStatus, Seq<char>>(BranchStatus { merged: false, diverged: false }),
        ),
{
}

/// A branch with no commits ahead of the base and a tip the base can
/// reach answers merged and not diverged: the count step hands a zero
/// ahead-count on, and the ancestor step confirms.
pub proof fn lemma_in_sync_branch(
    repo: Seq<char>,
    branch: Seq<char>,
    base: Seq<char>,
    count: OutcomeModel,
    ancestor: OutcomeModel,
)
    requires
        count matches OutcomeModel::Exited { success: true, stdout, .. } && spec_ahead_count(
            stdout,
        ) == 0,
        ancestor matches OutcomeModel::Exited { success: true, .. },
    ensures
        spec_status_step(repo, branch, StatusStateModel::CountAhead { base }, count)
            == StatusStepModel::Run(
            merge_base_model(repo, branch, base),
            StatusStateModel::Ancestor { base, diverged: false },
        ),
        spec_status_step(
            repo,
            branch,
            StatusStateModel::Ancestor { base, diverged: false },
            ancestor,
        ) == StatusStepModel::Done(
            Ok::<BranchStatus, Seq<char>>(BranchStatus { merged: true, diverged: false }),
        ),
{
}

/// A branch strictly ahead of the base is reported diverged, whatever the
/// ancestor check says.
pub proof fn lemma_ahead_branch_diverged(
    repo: Seq<char>,
    branch: Seq<char>,
    base: Seq<char>,
    count: OutcomeModel,
    ancestor: OutcomeModel,
)
    requires
        count matches OutcomeModel::Exited { success: true, stdout, .. } && spec_ahead_count(
            stdout,
        ) > 0,
        ancestor matches OutcomeModel::Exited { .. },
    ensures
        spec_status_step(repo, branch, StatusStateModel::CountAhead { base }, count)
            == StatusStepModel::Run(
            merge_base_model(repo, branch, base),
            StatusStateModel::Ancestor { base, diverged: true },
        ),
        spec_status_step(
            repo,
            branch,
            StatusStateModel::Ancestor { base, diverged: true },
            ancestor,
        ) matches StatusStepModel::Done(res) && res matches Ok(b) && b.diverged,
{
}

} // verus!
