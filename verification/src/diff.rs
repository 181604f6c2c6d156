//! The diff retriever.
//!
//! A diff query scopes a unified diff to one file. When the working-tree
//! diff of an untracked file comes back empty, the file is compared
//! two-sided against an absent file instead, so brand-new files still show
//! their content as added. Exit code one from the diff tool means
//! "differences found" and is success; only codes above one fail.

use vstd::prelude::*;
use vstd::string::StringSliceAdditionalSpecFns;
use crate::bytes::{spec_starts_with, spec_contains, starts_with, contains_bytes, eq_bytes};
use crate::text::{lossy_of, lossy_string};
use crate::run::{
    CmdSpec, CmdModel, ProgramModel, RunOutcome, OutcomeModel, arg, prefixed, git_in,
};

verus! {

/// Which side of the index a diff query inspects.
#[derive(Clone, Copy, Debug, PartialEq, Eq, Structural)]
pub enum DiffMode {
    Working,
    Staged,
}

/// The mode a request string denotes; anything but the staged keyword is
/// the working tree.
pub fn diff_mode_of(mode: &str) -> (r: DiffMode)
    ensures
        r == (if mode@ == "staged"@ {
            DiffMode::Staged
        } else {
            DiffMode::Working
        }),
{
    if eq_bytes(mode.as_bytes(), "staged".as_bytes()) {
        proof {
            vstd::utf8::encode_utf8_decode_utf8(mode@);
            vstd::utf8::encode_utf8_decode_utf8("staged"@);
        }
        DiffMode::Staged
    } else {
        DiffMode::Working
    }
}

/// A retrieved diff: the unified text and whether the tool flagged binary
/// content.
#[derive(Debug)]
pub struct GitDiff {
    pub diff: String,
    pub is_binary: bool,
}

/// Spec-level image of a [`GitDiff`].
#[verifier::ext_equal]
pub struct DiffModel {
    pub diff: Seq<char>,
    pub is_binary: bool,
}

impl View for GitDiff {
    type V = DiffModel;

    open spec fn view(&self) -> DiffModel {
        DiffModel { diff: self.diff@, is_binary: self.is_binary }
    }
}

/// The tool marks binary content with either of two phrases in the diff
/// text.
pub open spec fn spec_is_binary(stdout: Seq<u8>) -> bool {
    spec_contains(stdout, "Binary files".spec_bytes()) || spec_contains(
        stdout,
        "GIT binary patch".spec_bytes(),
    )
}

/// The diff a completed invocation yields.
pub open spec fn spec_diff_of(stdout: Seq<u8>) -> DiffModel {
    DiffModel { diff: lossy_of(stdout), is_binary: spec_is_binary(stdout) }
}

fn diff_of(stdout: &[u8]) -> (r: GitDiff)
    ensures
        r@ == spec_diff_of(stdout@),
{
    let text = lossy_string(stdout);
    let is_binary = contains_bytes(stdout, "Binary files".as_bytes()) || contains_bytes(
        stdout,
        "GIT binary patch".as_bytes(),
    );
    GitDiff { diff: text, is_binary }
}

/// The file's path relative to the workspace root, on the raw bytes: the
/// root prefix is removed when present, otherwise the path is taken as
/// already relative.
pub open spec fn spec_rel_path(repo: Seq<u8>, file: Seq<u8>) -> Seq<u8> {
    if file == repo {
        Seq::<u8>::empty()
    } else if spec_starts_with(file, repo.push(0x2f)) {
        file.skip(repo.len() as int + 1)
    } else {
        file
    }
}

/// Computes the workspace-relative form of a file path.
pub fn rel_path(repo_path: &str, file_path: &str) -> (r: String)
    ensures
        r@ == lossy_of(spec_rel_path(repo_path.spec_bytes(), file_path.spec_bytes())),
{
    let fb = file_path.as_bytes();
    let rb = repo_path.as_bytes();
    if fb.len() == rb.len() && starts_with(fb, rb) {
        proof {
            assert(fb@.subrange(0, rb@.len() as int) =~= fb@);
            assert(fb@ == rb@);
        }
        let empty = &fb[0..0];
        proof {
            assert(empty@ =~= spec_rel_path(repo_path.spec_bytes(), file_path.spec_bytes()));
        }
        return lossy_string(empty);
    }
    let mut pb: Vec<u8> = Vec::new();
    let mut i: usize = 0;
    while i < rb.len()
        invariant
            i <= rb.len(),
            pb@ == rb@.subrange(0, i as int),
        decreases rb.len() - i,
    {
        pb.push(rb[i]);
        assert(pb@ =~= rb@.subrange(0, i + 1));
        i += 1;
    }
    pb.push(0x2f);
    proof {
        assert(pb@ =~= rb@.push(0x2f));
    }
    if starts_with(fb, pb.as_slice()) {
        let tail = &fb[pb.len()..fb.len()];
        proof {
            assert(tail@ =~= spec_rel_path(repo_path.spec_bytes(), file_path.spec_bytes()));
        }
        lossy_string(tail)
    } else {
        proof {
            if file_path.spec_bytes() == repo_path.spec_bytes() {
                assert(fb@.subrange(0, rb@.len() as int) =~= fb@);
            }
        }
        lossy_string(fb)
    }
}

/// The scoped diff invocation: unified, colorless, optionally against the
/// index, restricted to one path.
pub open spec fn diff_cmd_model(repo: Seq<char>, rel: Seq<char>, mode: DiffMode) -> CmdModel {
    CmdModel {
        program: ProgramModel::Git,
        args: (if mode == DiffMode::Staged {
            seq!["diff"@, "--no-color"@, "--patch"@, "--cached"@]
        } else {
            seq!["diff"@, "--no-color"@, "--patch"@]
        }).push("--"@).push(rel),
        cwd: Some(repo),
    }
}

fn diff_cmd(repo: &str, rel: &str, mode: DiffMode) -> (c: CmdSpec)
    ensures
        c@ =~~= diff_cmd_model(repo@, rel@, mode),
{
    let mut args: Vec<String> = Vec::new();
    args.push(arg("diff"));
    args.push(arg("--no-color"));
    args.push(arg("--patch"));
    if matches!(mode, DiffMode::Staged) {
        args.push(arg("--cached"));
    }
    args.push(arg("--"));
    args.push(arg(rel));
    git_in(repo, args)
}

/// The index-membership probe deciding whether a file is untracked.
pub open spec fn ls_files_model(repo: Seq<char>, rel: Seq<char>) -> CmdModel {
    CmdModel {
        program: ProgramModel::Git,
        args: seq!["ls-files"@, "--error-unmatch"@, "--"@, rel],
        cwd: Some(repo),
    }
}

fn ls_files_cmd(repo: &str, rel: &str) -> (c: CmdSpec)
    ensures
        c@ =~~= ls_files_model(repo@, rel@),
{
    let mut args: Vec<String> = Vec::new();
    args.push(arg("ls-files"));
    args.push(arg("--error-unmatch"));
    args.push(arg("--"));
    args.push(arg(rel));
    git_in(repo, args)
}

/// The two-sided comparison against an absent file, used for untracked
/// files.
pub open spec fn untracked_diff_model(repo: Seq<char>, rel: Seq<char>) -> CmdModel {
    CmdModel {
        program: ProgramModel::Git,
        args: seq![
            "diff"@,
            "--no-color"@,
            "--patch"@,
            "--no-index"@,
            "--"@,
            "/dev/null"@,
            rel,
        ],
        cwd: Some(repo),
    }
}

fn untracked_diff_cmd(repo: &str, rel: &str) -> (c: CmdSpec)
    ensures
        c@ =~~= untracked_diff_model(repo@, rel@),
{
    let mut args: Vec<String> = Vec::new();
    args.push(arg("diff"));
    args.push(arg("--no-color"));
    args.push(arg("--patch"));
    args.push(arg("--no-index"));
    args.push(arg("--"));
    args.push(arg("/dev/null"));
    args.push(arg(rel));
    git_in(repo, args)
}

/// Where a diff query stands between invocations.
pub enum DiffState {
    /// The scoped diff is running.
    FirstDiff { rel: String },
    /// The first diff was empty in working-tree mode; the index probe is
    /// running.
    CheckUntracked { rel: String },
    /// The two-sided comparison is running.
    UntrackedDiff,
}

/// Spec-level image of a [`DiffState`].
#[verifier::ext_equal]
pub enum DiffStateModel {
    FirstDiff { rel: Seq<char> },
    CheckUntracked { rel: Seq<char> },
    UntrackedDiff,
}

impl View for DiffState {
    type V = DiffStateModel;

    open spec fn view(&self) -> DiffStateModel {
        match self {
            DiffState::FirstDiff { rel } => DiffStateModel::FirstDiff { rel: rel@ },
            DiffState::CheckUntracked { rel } => DiffStateModel::CheckUntracked { rel: rel@ },
            DiffState::UntrackedDiff => DiffStateModel::UntrackedDiff,
        }
    }
}

/// What the machine asks for next.
pub enum DiffStep {
    Run(CmdSpec, DiffState),
    Done(Result<GitDiff, String>),
}

/// Spec-level image of a [`DiffStep`].
#[verifier::ext_equal]
pub enum DiffStepModel {
    Run(CmdModel, DiffStateModel),
    Done(Result<DiffModel, Seq<char>>),
}

impl View for DiffStep {
    type V = DiffStepModel;

    open spec fn view(&self) -> DiffStepModel {
        match self {
            DiffStep::Run(c, s) => DiffStepModel::Run(c@, s@),
            DiffStep::Done(r) => DiffStepModel::Done(
                match r {
                    Ok(d) => Ok(d@),
                    Err(e) => Err(e@),
                },
            ),
        }
    }
}

/// The exit code of a completed invocation, zero when the platform
/// reported none.
pub open spec fn spec_code_or_zero(code: Option<i32>) -> int {
    match code {
        Some(c) => c as int,
        None => 0,
    }
}

/// One transition of the diff machine.
pub open spec fn spec_diff_step(
    repo: Seq<char>,
    mode: DiffMode,
    st: DiffStateModel,
    o: OutcomeModel,
) -> DiffStepModel {
    match st {
        DiffStateModel::FirstDiff { rel } => match o {
            OutcomeModel::NotFound { message } => DiffStepModel::Done(
                Err("Failed to execute git diff: "@ + message),
            ),
            OutcomeModel::Failed { message } => DiffStepModel::Done(
                Err("Failed to execute git diff: "@ + message),
            ),
            OutcomeModel::Exited { code, stdout, stderr, .. } => {
                if spec_code_or_zero(code) > 1 {
                    DiffStepModel::Done(Err("Git diff failed: "@ + lossy_of(stderr)))
                } else if stdout.len() == 0 && mode == DiffMode::Working {
                    DiffStepModel::Run(
                        ls_files_model(repo, rel),
                        DiffStateModel::CheckUntracked { rel },
                    )
                } else {
                    DiffStepModel::Done(Ok(spec_diff_of(stdout)))
                }
            },
        },
        DiffStateModel::CheckUntracked { rel } => match o {
            OutcomeModel::Exited { success, .. } => {
                if success {
                    DiffStepModel::Done(Ok(spec_diff_of(Seq::<u8>::empty())))
                } else {
                    DiffStepModel::Run(
                        untracked_diff_model(repo, rel),
                        DiffStateModel::UntrackedDiff,
                    )
                }
            },
            _ => DiffStepModel::Done(Ok(spec_diff_of(Seq::<u8>::empty()))),
        },
        DiffStateModel::UntrackedDiff => match o {
            OutcomeModel::NotFound { message } => DiffStepModel::Done(
                Err("Failed to execute git diff: "@ + message),
            ),
            OutcomeModel::Failed { message } => DiffStepModel::Done(
                Err("Failed to execute git diff: "@ + message),
            ),
            OutcomeModel::Exited { code, stdout, stderr, .. } => {
                if spec_code_or_zero(code) > 1 {
                    DiffStepModel::Done(Err("Git diff failed: "@ + lossy_of(stderr)))
                } else {
                    DiffStepModel::Done(Ok(spec_diff_of(stdout)))
                }
            },
        },
    }
}

/// Starts a diff query: computes the workspace-relative path and scopes
/// the first invocation to it.
pub fn get_diff(repo_path: &str, file_path: &str, mode: DiffMode) -> (r: (CmdSpec, DiffState))
    ensures
        ({
            let rel = lossy_of(spec_rel_path(repo_path.spec_bytes(), file_path.spec_bytes()));
            r.0@ =~~= diff_cmd_model(repo_path@, rel, mode) && r.1@ == (DiffStateModel::FirstDiff {
                rel,
            })
        }),
{
    let rel = rel_path(repo_path, file_path);
    let cmd = diff_cmd(repo_path, rel.as_str(), mode);
    (cmd, DiffState::FirstDiff { rel })
}

/// Drives the diff machine one transition.
pub fn diff_step(repo_path: &str, mode: DiffMode, state: DiffState, outcome: &RunOutcome) -> (r:
    DiffStep)
    ensures
        r@ =~~= spec_diff_step(repo_path@, mode, state@, outcome@),
{
    match state {
        DiffState::FirstDiff { rel } => match outcome {
            RunOutcome::NotFound { message } => DiffStep::Done(
                Err(prefixed("Failed to execute git diff: ", message.as_str())),
            ),
            RunOutcome::Failed { message } => DiffStep::Done(
                Err(prefixed("Failed to execute git diff: ", message.as_str())),
            ),
            RunOutcome::Exited { code, stdout, stderr, .. } => {
                let c: i32 = match code {
                    Some(c) => *c,
                    None => 0,
                };
                if c > 1 {
                    let tail = lossy_string(stderr.as_slice());
                    DiffStep::Done(Err(prefixed("Git diff failed: ", tail.as_str())))
                } else if stdout.len() == 0 && matches!(mode, DiffMode::Working) {
                    let cmd = ls_files_cmd(repo_path, rel.as_str());
                    DiffStep::Run(cmd, DiffState::CheckUntracked { rel })
                } else {
                    DiffStep::Done(Ok(diff_of(stdout.as_slice())))
                }
            },
        },
        DiffState::CheckUntracked { rel } => match outcome {
            RunOutcome::Exited { success, .. } => {
                if *success {
                    let empty: Vec<u8> = Vec::new();
                    DiffStep::Done(Ok(diff_of(empty.as_slice())))
                } else {
                    let cmd = untracked_diff_cmd(repo_path, rel.as_str());
                    DiffStep::Run(cmd, DiffState::UntrackedDiff)
                }
            },
            _ => {
                let empty: Vec<u8> = Vec::new();
                DiffStep::Done(Ok(diff_of(empty.as_slice())))
            },
        },
        DiffState::UntrackedDiff => match outcome {
            RunOutcome::NotFound { message } => DiffStep::Done(
                Err(prefixed("Failed to execute git diff: ", message.as_str())),
            ),
            RunOutcome::Failed { message } => DiffStep::Done(
                Err(prefixed("Failed to execute git diff: ", message.as_str())),
            ),
            RunOutcome::Exited { code, stdout, stderr, .. } => {
                let c: i32 = match code {
                    Some(c) => *c,
                    None => 0,
                };
                if c > 1 {
                    let tail = lossy_string(stderr.as_slice());
                    DiffStep::Done(Err(prefixed("Git diff failed: ", tail.as_str())))
                } else {
                    DiffStep::Done(Ok(diff_of(stdout.as_slice())))
                }
            },
        },
    }
}

/// In working-tree mode an untracked file whose scoped diff is empty is
/// re-run as the two-sided comparison, and the text of that comparison is
/// returned verbatim: whatever the tool shows as the whole file added
/// reaches the caller.
pub proof fn lemma_untracked_diff_two_sided(
    repo: Seq<char>,
    rel: Seq<char>,
    first: OutcomeModel,
    probe: OutcomeModel,
    second: OutcomeModel,
)
    requires
        first matches OutcomeModel::Exited { code, stdout, .. } && spec_code_or_zero(code) <= 1
            && stdout.len() == 0,
        probe matches OutcomeModel::Exited { success: false, .. },
        second matches OutcomeModel::Exited { code, stdout, .. } && spec_code_or_zero(code) <= 1,
    ensures
        spec_diff_step(repo, DiffMode::Working, DiffStateModel::FirstDiff { rel }, first)
            == DiffStepModel::Run(
            ls_files_model(repo, rel),
            DiffStateModel::CheckUntracked { rel },
        ),
        spec_diff_step(repo, DiffMode::Working, DiffStateModel::CheckUntracked { rel }, probe)
            == DiffStepModel::Run(untracked_diff_model(repo, rel), DiffStateModel::UntrackedDiff),
        second matches OutcomeModel::Exited { stdout, .. } ==> spec_diff_step(
            repo,
            DiffMode::Working,
            DiffStateModel::UntrackedDiff,
            second,
        ) == DiffStepModel::Done(Ok::<DiffModel, Seq<char>>(spec_diff_of(stdout))),
{
}

} // verus!
