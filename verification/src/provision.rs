//! The workspace provisioner.
//!
//! Provisioning forks an isolated, branch-scoped copy of a source
//! repository: either a full local clone (with its origin remote rewired
//! to the source's own origin, so pushes go to the real upstream, or
//! removed outright when the source has none) or a lightweight linked
//! worktree sharing object storage. Both modes
//! converge on the ignored-path carry-over. The whole operation is a
//! state machine; the caller runs each invocation and feeds the outcome
//! back, and any step's failure aborts with the tool's own words.

use vstd::prelude::*;
use vstd::string::StringSliceAdditionalSpecFns;
use vstd::string::StrSliceExecFns;
use crate::bytes::{spec_trim, trim_ascii};
use crate::text::{lossy_of, lossy_string};
use crate::run::{
    CmdSpec, CmdModel, ProgramModel, RunOutcome, OutcomeModel, arg, prefixed, git_in,
    git_anywhere,
};
use crate::ignored::{
    spec_filter_paths, filter_ignored_paths, entries_bytes, list_ignored_cmd, spec_list_ignored,
    list_ignored_output,
};

verus! {

/// How a workspace is created: an independent clone, or a linked
/// worktree sharing the source's object storage.
#[derive(Clone, Copy, Debug, PartialEq, Eq, Structural)]
pub enum DivergenceMode {
    Clone,
    Worktree,
}

/// ASCII lowercasing of one byte.
pub open spec fn ascii_lower(c: u8) -> u8 {
    if 0x41 <= c <= 0x5a {
        (c + 0x20) as u8
    } else {
        c
    }
}

/// Case-insensitive ASCII equality, used to recognize the requested mode.
fn eq_ignore_ascii_case_bytes(a: &[u8], b: &[u8]) -> (r: bool)
    ensures
        r == (a@.map_values(|c: u8| ascii_lower(c)) == b@.map_values(|c: u8| ascii_lower(c))),
{
    if a.len() != b.len() {
        proof {
            assert(a@.map_values(|c: u8| ascii_lower(c)).len() == a@.len());
            assert(b@.map_values(|c: u8| ascii_lower(c)).len() == b@.len());
        }
        return false;
    }
    let mut i: usize = 0;
    while i < a.len()
        invariant
            i <= a.len() == b.len(),
            forall|j: int| 0 <= j < i ==> ascii_lower(a@[j]) == ascii_lower(b@[j]),
        decreases a.len() - i,
    {
        let ca = a[i];
        let cb = b[i];
        let la: u8 = if 0x41 <= ca && ca <= 0x5a {
            ca + 0x20
        } else {
            ca
        };
        let lb: u8 = if 0x41 <= cb && cb <= 0x5a {
            cb + 0x20
        } else {
            cb
        };
        if la != lb {
            proof {
                assert(a@.map_values(|c: u8| ascii_lower(c))[i as int] != b@.map_values(
                    |c: u8| ascii_lower(c),
                )[i as int]);
            }
            return false;
        }
        i += 1;
    }
    proof {
        assert(a@.map_values(|c: u8| ascii_lower(c)) =~= b@.map_values(
            |c: u8| ascii_lower(c),
        ));
    }
    true
}

/// The mode a request denotes: the worktree keyword, compared without
/// regard to ASCII case; anything else, or no request, is a clone.
pub open spec fn spec_mode_of(requested: Option<Seq<char>>) -> DivergenceMode {
    match requested {
        Some(m) => if vstd::utf8::encode_utf8(m).map_values(|c: u8| ascii_lower(c))
            == "worktree".spec_bytes().map_values(|c: u8| ascii_lower(c)) {
            DivergenceMode::Worktree
        } else {
            DivergenceMode::Clone
        },
        None => DivergenceMode::Clone,
    }
}

/// Normalizes the requested creation mode.
pub fn mode_of(requested: &Option<String>) -> (r: DivergenceMode)
    ensures
        r == spec_mode_of(
            match requested {
                Some(m) => Some(m@),
                None => None,
            },
        ),
{
    match requested {
        Some(m) => {
            if eq_ignore_ascii_case_bytes(m.as_str().as_bytes(), "worktree".as_bytes()) {
                DivergenceMode::Worktree
            } else {
                DivergenceMode::Clone
            }
        },
        None => DivergenceMode::Clone,
    }
}

/// The fixed name of each mode, as recorded with the workspace.
pub fn mode_name(mode: DivergenceMode) -> (r: &'static str)
    ensures
        mode == DivergenceMode::Worktree ==> r@ == "worktree"@,
        mode == DivergenceMode::Clone ==> r@ == "clone"@,
{
    match mode {
        DivergenceMode::Worktree => "worktree",
        DivergenceMode::Clone => "clone",
    }
}

/// Spaces replaced by hyphens.
pub open spec fn dash_spaces(b: Seq<u8>) -> Seq<u8> {
    b.map_values(
        |c: u8|
            if c == 0x20 {
                0x2d
            } else {
                c
            },
    )
}

/// Slashes and spaces replaced by hyphens.
pub open spec fn dash_separators(b: Seq<u8>) -> Seq<u8> {
    b.map_values(
        |c: u8|
            if c == 0x20 || c == 0x2f {
                0x2d
            } else {
                c
            },
    )
}

fn dash_spaces_exec(b: &[u8]) -> (r: Vec<u8>)
    ensures
        r@ == dash_spaces(b@),
{
    let mut out: Vec<u8> = Vec::new();
    let mut i: usize = 0;
    while i < b.len()
        invariant
            i <= b.len(),
            out@ == dash_spaces(b@.subrange(0, i as int)),
        decreases b.len() - i,
    {
        let c = b[i];
        if c == 0x20 {
            out.push(0x2d);
        } else {
            out.push(c);
        }
        proof {
            assert(dash_spaces(b@.subrange(0, i + 1)) =~= dash_spaces(
                b@.subrange(0, i as int),
            ).push(
                if b@[i as int] == 0x20 {
                    0x2d
                } else {
                    b@[i as int]
                },
            ));
        }
        i += 1;
    }
    proof {
        assert(b@.subrange(0, b@.len() as int) =~= b@);
    }
    out
}

fn dash_separators_exec(b: &[u8]) -> (r: Vec<u8>)
    ensures
        r@ == dash_separators(b@),
{
    let mut out: Vec<u8> = Vec::new();
    let mut i: usize = 0;
    while i < b.len()
        invariant
            i <= b.len(),
            out@ == dash_separators(b@.subrange(0, i as int)),
        decreases b.len() - i,
    {
        let c = b[i];
        if c == 0x20 || c == 0x2f {
            out.push(0x2d);
        } else {
            out.push(c);
        }
        proof {
            assert(dash_separators(b@.subrange(0, i + 1)) =~= dash_separators(
                b@.subrange(0, i as int),
            ).push(
                if b@[i as int] == 0x20 || b@[i as int] == 0x2f {
                    0x2d
                } else {
                    b@[i as int]
                },
            ));
        }
        i += 1;
    }
    proof {
        assert(b@.subrange(0, b@.len() as int) =~= b@);
    }
    out
}

/// What lowercasing yields: a pure function of the characters alone.
pub uninterp spec fn lower_of(s: Seq<char>) -> Seq<char>;

/// Relies on `str::to_lowercase`: the result depends on the characters
/// alone; an empty string stays empty.
#[verifier::external_body]
fn lowercase(s: &str) -> (r: String)
    ensures
        r@ == lower_of(s@),
        s@.len() == 0 ==> r@.len() == 0,
{
    s.to_lowercase()
}

/// Relies on uuid's `Uuid::new_v4` and its hyphenated lower-hex
/// rendering: 36 characters, hyphens exactly at the four fixed
/// positions, lowercase hex digits elsewhere. The value is random, so
/// only the shape is promised. Aborts only if the operating system's
/// randomness source fails, an environmental fault no input avoids.
#[verifier::external_body]
fn fresh_uuid() -> (r: String)
    ensures
        r@.len() == 36,
        forall|i: int|
            0 <= i < 36 && i != 8 && i != 13 && i != 18 && i != 23 ==> ('0' <= #[trigger] r@[i]
                <= '9' || 'a' <= r@[i] <= 'f'),
        r@[8] == '-' && r@[13] == '-' && r@[18] == '-' && r@[23] == '-',
{
    uuid::Uuid::new_v4().to_string()
}

/// An eight-character lowercase-hex fragment.
pub open spec fn hex8(u: Seq<char>) -> bool {
    u.len() == 8 && forall|i: int| 0 <= i < 8 ==> ('0' <= #[trigger] u[i] <= '9' || 'a' <= u[i]
        <= 'f')
}

/// The derived directory name, before the random suffix: lower-cased
/// project name with spaces dashed, then the branch with separators
/// dashed, hyphen-joined.
pub open spec fn spec_dir_name_stem(project: Seq<char>, branch: Seq<char>) -> Seq<char> {
    lower_of(lossy_of(dash_spaces(vstd::utf8::encode_utf8(project)))) + "-"@ + lossy_of(
        dash_separators(vstd::utf8::encode_utf8(branch)),
    ) + "-"@
}

/// Derives a fresh workspace directory name: the stem from the project
/// and branch names, suffixed with eight hex characters of a freshly
/// generated random identifier. No uniqueness check is made; a collision
/// surfaces as the creation step's own failure.
pub fn divergence_dir_name(project_name: &str, branch_name: &str) -> (r: String)
    ensures
        exists|u: Seq<char>|
            hex8(u) && r@ == spec_dir_name_stem(project_name@, branch_name@) + u,
{
    let p = dash_spaces_exec(project_name.as_bytes());
    let p = lossy_string(p.as_slice());
    let mut name = lowercase(p.as_str());
    name.append("-");
    let b = dash_separators_exec(branch_name.as_bytes());
    let b = lossy_string(b.as_slice());
    name.append(b.as_str());
    name.append("-");
    let u = fresh_uuid();
    proof {
        assert(vstd::utf8::is_ascii_chars(u@)) by {
            assert(forall|i: int| 0 <= i < u@.len() ==> '\0' <= #[trigger] u@[i] <= '\u{7f}');
        }
    }
    let short = u.as_str().substring_ascii(0, 8);
    name.append(short);
    proof {
        let uu = u@.subrange(0, 8);
        assert(hex8(uu));
        assert(name@ == spec_dir_name_stem(project_name@, branch_name@) + uu);
    }
    name
}

/// The local clone of the source into the new workspace path.
pub open spec fn clone_model(source: Seq<char>, dest: Seq<char>) -> CmdModel {
    CmdModel {
        program: ProgramModel::Git,
        args: seq!["clone"@, "--local"@, source, dest],
        cwd: None,
    }
}

fn clone_cmd(source: &str, dest: &str) -> (c: CmdSpec)
    ensures
        c@ =~~= clone_model(source@, dest@),
{
    let mut args: Vec<String> = Vec::new();
    args.push(arg("clone"));
    args.push(arg("--local"));
    args.push(arg(source));
    args.push(arg(dest));
    git_anywhere(args)
}

/// The worktree creation, run in the source repository: with a fresh
/// branch from the current head, or attaching the named branch.
pub open spec fn worktree_add_model(
    source: Seq<char>,
    dest: Seq<char>,
    branch: Seq<char>,
    use_existing: bool,
) -> CmdModel {
    CmdModel {
        program: ProgramModel::Git,
        args: if use_existing {
            seq!["worktree"@, "add"@, dest, branch]
        } else {
            seq!["worktree"@, "add"@, "-b"@, branch, dest]
        },
        cwd: Some(source),
    }
}

fn worktree_add_cmd(source: &str, dest: &str, branch: &str, use_existing: bool) -> (c: CmdSpec)
    ensures
        c@ =~~= worktree_add_model(source@, dest@, branch@, use_existing),
{
    let mut args: Vec<String> = Vec::new();
    args.push(arg("worktree"));
    args.push(arg("add"));
    if use_existing {
        args.push(arg(dest));
        args.push(arg(branch));
    } else {
        args.push(arg("-b"));
        args.push(arg(branch));
        args.push(arg(dest));
    }
    git_in(source, args)
}

/// The read of the source repository's origin URL.
pub open spec fn get_url_model(repo: Seq<char>) -> CmdModel {
    CmdModel {
        program: ProgramModel::Git,
        args: seq!["remote"@, "get-url"@, "origin"@],
        cwd: Some(repo),
    }
}

pub fn get_url_cmd(repo: &str) -> (c: CmdSpec)
    ensures
        c@ =~~= get_url_model(repo@),
{
    let mut args: Vec<String> = Vec::new();
    args.push(arg("remote"));
    args.push(arg("get-url"));
    args.push(arg("origin"));
    git_in(repo, args)
}

/// The rewrite of the clone's origin remote.
pub open spec fn set_url_model(repo: Seq<char>, url: Seq<char>) -> CmdModel {
    CmdModel {
        program: ProgramModel::Git,
        args: seq!["remote"@, "set-url"@, "origin"@, url],
        cwd: Some(repo),
    }
}

fn set_url_cmd(repo: &str, url: &str) -> (c: CmdSpec)
    ensures
        c@ =~~= set_url_model(repo@, url@),
{
    let mut args: Vec<String> = Vec::new();
    args.push(arg("remote"));
    args.push(arg("set-url"));
    args.push(arg("origin"));
    args.push(arg(url));
    git_in(repo, args)
}

/// Adding the origin remote when the clone has none to rewrite.
pub open spec fn add_url_model(repo: Seq<char>, url: Seq<char>) -> CmdModel {
    CmdModel {
        program: ProgramModel::Git,
        args: seq!["remote"@, "add"@, "origin"@, url],
        cwd: Some(repo),
    }
}

fn add_url_cmd(repo: &str, url: &str) -> (c: CmdSpec)
    ensures
        c@ =~~= add_url_model(repo@, url@),
{
    let mut args: Vec<String> = Vec::new();
    args.push(arg("remote"));
    args.push(arg("add"));
    args.push(arg("origin"));
    args.push(arg(url));
    git_in(repo, args)
}

/// Dropping the default origin a local clone is born with, used when the
/// source has no origin of its own: the workspace then has none either.
pub open spec fn remove_url_model(repo: Seq<char>) -> CmdModel {
    CmdModel {
        program: ProgramModel::Git,
        args: seq!["remote"@, "remove"@, "origin"@],
        cwd: Some(repo),
    }
}

fn remove_url_cmd(repo: &str) -> (c: CmdSpec)
    ensures
        c@ =~~= remove_url_model(repo@),
{
    let mut args: Vec<String> = Vec::new();
    args.push(arg("remote"));
    args.push(arg("remove"));
    args.push(arg("origin"));
    git_in(repo, args)
}

/// A checkout of the requested branch, creating it or not.
pub open spec fn checkout_model(repo: Seq<char>, branch: Seq<char>, create: bool) -> CmdModel {
    CmdModel {
        program: ProgramModel::Git,
        args: if create {
            seq!["checkout"@, "-b"@, branch]
        } else {
            seq!["checkout"@, branch]
        },
        cwd: Some(repo),
    }
}

fn checkout_cmd(repo: &str, branch: &str, create: bool) -> (c: CmdSpec)
    ensures
        c@ =~~= checkout_model(repo@, branch@, create),
{
    let mut args: Vec<String> = Vec::new();
    args.push(arg("checkout"));
    if create {
        args.push(arg("-b"));
    }
    args.push(arg(branch));
    git_in(repo, args)
}

/// A checkout creating the branch from its remote-tracking counterpart.
pub open spec fn track_model(repo: Seq<char>, branch: Seq<char>) -> CmdModel {
    CmdModel {
        program: ProgramModel::Git,
        args: seq!["checkout"@, "-b"@, branch, "origin/"@ + branch],
        cwd: Some(repo),
    }
}

fn track_cmd(repo: &str, branch: &str) -> (c: CmdSpec)
    ensures
        c@ =~~= track_model(repo@, branch@),
{
    let mut args: Vec<String> = Vec::new();
    args.push(arg("checkout"));
    args.push(arg("-b"));
    args.push(arg(branch));
    args.push(prefixed("origin/", branch));
    git_in(repo, args)
}

/// The best-effort fetch before attaching an existing branch.
pub open spec fn fetch_dest_model(repo: Seq<char>) -> CmdModel {
    CmdModel { program: ProgramModel::Git, args: seq!["fetch"@, "origin"@], cwd: Some(repo) }
}

fn fetch_dest_cmd(repo: &str) -> (c: CmdSpec)
    ensures
        c@ =~~= fetch_dest_model(repo@),
{
    let mut args: Vec<String> = Vec::new();
    args.push(arg("fetch"));
    args.push(arg("origin"));
    git_in(repo, args)
}

/// The existence probe of the local or remote-tracking branch reference.
pub open spec fn branch_ref_model(repo: Seq<char>, branch: Seq<char>, remote: bool) -> CmdModel {
    CmdModel {
        program: ProgramModel::Git,
        args: seq![
            "show-ref"@,
            "--verify"@,
            "--quiet"@,
            (if remote {
                "refs/remotes/origin/"@ + branch
            } else {
                "refs/heads/"@ + branch
            }),
        ],
        cwd: Some(repo),
    }
}

fn branch_ref_cmd(repo: &str, branch: &str, remote: bool) -> (c: CmdSpec)
    ensures
        c@ =~~= branch_ref_model(repo@, branch@, remote),
{
    let mut args: Vec<String> = Vec::new();
    args.push(arg("show-ref"));
    args.push(arg("--verify"));
    args.push(arg("--quiet"));
    if remote {
        args.push(prefixed("refs/remotes/origin/", branch));
    } else {
        args.push(prefixed("refs/heads/", branch));
    }
    git_in(repo, args)
}

/// Where a provisioning run stands between invocations.
pub enum ProvisionState {
    /// The clone is running.
    CloneRunning,
    /// The worktree creation is running.
    WorktreeRunning,
    /// The source's origin URL is being read.
    ReadSourceRemote,
    /// The origin rewrite is running.
    SetUrl { url: String },
    /// The rewrite found no remote to change; the add is running.
    AddUrl { url: String },
    /// The source has no origin; the clone's default origin is being
    /// removed.
    RemoveOrigin,
    /// The best-effort fetch before attaching an existing branch.
    FetchBeforeCheckout,
    /// The local branch reference is being probed.
    CheckLocalRef,
    /// The remote-tracking branch reference is being probed.
    CheckRemoteRef,
    /// A branch-creating checkout is running.
    CheckoutCreate,
    /// A plain checkout is running.
    CheckoutPlain,
    /// A checkout tracking the remote branch is running.
    TrackRemote,
    /// The ignored-path listing of the source is running.
    ListIgnored,
}

/// Spec-level image of a [`ProvisionState`].
#[verifier::ext_equal]
pub enum ProvisionStateModel {
    CloneRunning,
    WorktreeRunning,
    ReadSourceRemote,
    SetUrl { url: Seq<char> },
    AddUrl { url: Seq<char> },
    RemoveOrigin,
    FetchBeforeCheckout,
    CheckLocalRef,
    CheckRemoteRef,
    CheckoutCreate,
    CheckoutPlain,
    TrackRemote,
    ListIgnored,
}

impl View for ProvisionState {
    type V = ProvisionStateModel;

    open spec fn view(&self) -> ProvisionStateModel {
        match self {
            ProvisionState::CloneRunning => ProvisionStateModel::CloneRunning,
            ProvisionState::WorktreeRunning => ProvisionStateModel::WorktreeRunning,
            ProvisionState::ReadSourceRemote => ProvisionStateModel::ReadSourceRemote,
            ProvisionState::SetUrl { url } => ProvisionStateModel::SetUrl { url: url@ },
            ProvisionState::AddUrl { url } => ProvisionStateModel::AddUrl { url: url@ },
            ProvisionState::RemoveOrigin => ProvisionStateModel::RemoveOrigin,
            ProvisionState::FetchBeforeCheckout => ProvisionStateModel::FetchBeforeCheckout,
            ProvisionState::CheckLocalRef => ProvisionStateModel::CheckLocalRef,
            ProvisionState::CheckRemoteRef => ProvisionStateModel::CheckRemoteRef,
            ProvisionState::CheckoutCreate => ProvisionStateModel::CheckoutCreate,
            ProvisionState::CheckoutPlain => ProvisionStateModel::CheckoutPlain,
            ProvisionState::TrackRemote => ProvisionStateModel::TrackRemote,
            ProvisionState::ListIgnored => ProvisionStateModel::ListIgnored,
        }
    }
}

/// What the machine asks for next: another invocation, or the end of the
/// run, successful with the ignored paths to carry over, or failed.
pub enum ProvisionStep {
    Run(CmdSpec, ProvisionState),
    Done(Result<Vec<String>, String>),
}

/// Spec-level image of a [`ProvisionStep`].
#[verifier::ext_equal]
pub enum ProvisionStepModel {
    Run(CmdModel, ProvisionStateModel),
    Done(Result<Seq<Seq<char>>, Seq<char>>),
}

impl View for ProvisionStep {
    type V = ProvisionStepModel;

    open spec fn view(&self) -> ProvisionStepModel {
        match self {
            ProvisionStep::Run(c, s) => ProvisionStepModel::Run(c@, s@),
            ProvisionStep::Done(r) => ProvisionStepModel::Done(
                match r {
                    Ok(paths) => Ok(paths.deep_view()),
                    Err(e) => Err(e@),
                },
            ),
        }
    }
}

/// After the mode-specific setup, attach the requested branch: fetch and
/// probe when it is to exist already, create it otherwise.
pub open spec fn spec_next_checkout(
    dest: Seq<char>,
    branch: Seq<char>,
    use_existing: bool,
) -> ProvisionStepModel {
    if use_existing {
        ProvisionStepModel::Run(fetch_dest_model(dest), ProvisionStateModel::FetchBeforeCheckout)
    } else {
        ProvisionStepModel::Run(
            checkout_model(dest, branch, true),
            ProvisionStateModel::CheckoutCreate,
        )
    }
}

fn next_checkout(dest: &str, branch: &str, use_existing: bool) -> (r: ProvisionStep)
    ensures
        r@ =~~= spec_next_checkout(dest@, branch@, use_existing),
{
    if use_existing {
        ProvisionStep::Run(fetch_dest_cmd(dest), ProvisionState::FetchBeforeCheckout)
    } else {
        ProvisionStep::Run(checkout_cmd(dest, branch, true), ProvisionState::CheckoutCreate)
    }
}

/// The step into the shared tail: list the source's ignored paths.
pub open spec fn spec_to_copy_stage(source: Seq<char>) -> ProvisionStepModel {
    ProvisionStepModel::Run(
        CmdModel {
            program: ProgramModel::Git,
            args: seq!["ls-files"@, "--others"@, "-i"@, "--exclude-standard"@, "-z"@],
            cwd: Some(source),
        },
        ProvisionStateModel::ListIgnored,
    )
}

fn to_copy_stage(source: &str) -> (r: ProvisionStep)
    ensures
        r@ =~~= spec_to_copy_stage(source@),
{
    ProvisionStep::Run(list_ignored_cmd(source), ProvisionState::ListIgnored)
}

/// One transition of the provisioning machine.
pub open spec fn spec_provision_step(
    source: Seq<char>,
    dest: Seq<char>,
    branch: Seq<char>,
    skips: Seq<Seq<char>>,
    use_existing: bool,
    st: ProvisionStateModel,
    o: OutcomeModel,
) -> ProvisionStepModel {
    match st {
        ProvisionStateModel::CloneRunning => match o {
            OutcomeModel::NotFound { message } => ProvisionStepModel::Done(
                Err("Failed to execute git clone: "@ + message),
            ),
            OutcomeModel::Failed { message } => ProvisionStepModel::Done(
                Err("Failed to execute git clone: "@ + message),
            ),
            OutcomeModel::Exited { success, stderr, .. } => if success {
                ProvisionStepModel::Run(
                    get_url_model(source),
                    ProvisionStateModel::ReadSourceRemote,
                )
            } else {
                ProvisionStepModel::Done(Err("Git clone failed: "@ + lossy_of(stderr)))
            },
        },
        ProvisionStateModel::WorktreeRunning => match o {
            OutcomeModel::NotFound { message } => ProvisionStepModel::Done(
                Err("Failed to execute git worktree add: "@ + message),
            ),
            OutcomeModel::Failed { message } => ProvisionStepModel::Done(
                Err("Failed to execute git worktree add: "@ + message),
            ),
            OutcomeModel::Exited { success, stderr, .. } => if success {
                spec_to_copy_stage(source)
            } else {
                ProvisionStepModel::Done(Err("Git worktree add failed: "@ + lossy_of(stderr)))
            },
        },
        ProvisionStateModel::ReadSourceRemote => match o {
            OutcomeModel::NotFound { message } => ProvisionStepModel::Done(
                Err("Failed to get remote URL: "@ + message),
            ),
            OutcomeModel::Failed { message } => ProvisionStepModel::Done(
                Err("Failed to get remote URL: "@ + message),
            ),
            OutcomeModel::Exited { success, stdout, .. } => if success {
                let url = lossy_of(spec_trim(stdout));
                ProvisionStepModel::Run(
                    set_url_model(dest, url),
                    ProvisionStateModel::SetUrl { url },
                )
            } else {
                ProvisionStepModel::Run(
                    remove_url_model(dest),
                    ProvisionStateModel::RemoveOrigin,
                )
            },
        },
        ProvisionStateModel::SetUrl { url } => match o {
            OutcomeModel::NotFound { message } => ProvisionStepModel::Done(
                Err("Failed to set origin URL: "@ + message),
            ),
            OutcomeModel::Failed { message } => ProvisionStepModel::Done(
                Err("Failed to set origin URL: "@ + message),
            ),
            OutcomeModel::Exited { success, .. } => if success {
                spec_next_checkout(dest, branch, use_existing)
            } else {
                ProvisionStepModel::Run(
                    add_url_model(dest, url),
                    ProvisionStateModel::AddUrl { url },
                )
            },
        },
        ProvisionStateModel::AddUrl { .. } => match o {
            OutcomeModel::NotFound { message } => ProvisionStepModel::Done(
                Err("Failed to add origin URL: "@ + message),
            ),
            OutcomeModel::Failed { message } => ProvisionStepModel::Done(
                Err("Failed to add origin URL: "@ + message),
            ),
            OutcomeModel::Exited { success, stderr, .. } => if success {
                spec_next_checkout(dest, branch, use_existing)
            } else {
                ProvisionStepModel::Done(Err("Failed to set origin URL: "@ + lossy_of(stderr)))
            },
        },
        ProvisionStateModel::RemoveOrigin => match o {
            OutcomeModel::NotFound { message } => ProvisionStepModel::Done(
                Err("Failed to remove origin URL: "@ + message),
            ),
            OutcomeModel::Failed { message } => ProvisionStepModel::Done(
                Err("Failed to remove origin URL: "@ + message),
            ),
            OutcomeModel::Exited { success, stderr, .. } => if success {
                spec_next_checkout(dest, branch, use_existing)
            } else {
                ProvisionStepModel::Done(
                    Err("Failed to remove origin URL: "@ + lossy_of(stderr)),
                )
            },
        },
        ProvisionStateModel::FetchBeforeCheckout => ProvisionStepModel::Run(
            branch_ref_model(dest, branch, false),
            ProvisionStateModel::CheckLocalRef,
        ),
        ProvisionStateModel::CheckLocalRef => match o {
            OutcomeModel::NotFound { message } => ProvisionStepModel::Done(
                Err("Failed to execute git show-ref: "@ + message),
            ),
            OutcomeModel::Failed { message } => ProvisionStepModel::Done(
                Err("Failed to execute git show-ref: "@ + message),
            ),
            OutcomeModel::Exited { success, .. } => if success {
                ProvisionStepModel::Run(
                    checkout_model(dest, branch, false),
                    ProvisionStateModel::CheckoutPlain,
                )
            } else {
                ProvisionStepModel::Run(
                    branch_ref_model(dest, branch, true),
                    ProvisionStateModel::CheckRemoteRef,
                )
            },
        },
        ProvisionStateModel::CheckRemoteRef => match o {
            OutcomeModel::NotFound { message } => ProvisionStepModel::Done(
                Err("Failed to execute git show-ref: "@ + message),
            ),
            OutcomeModel::Failed { message } => ProvisionStepModel::Done(
                Err("Failed to execute git show-ref: "@ + message),
            ),
            OutcomeModel::Exited { success, .. } => if success {
                ProvisionStepModel::Run(
                    track_model(dest, branch),
                    ProvisionStateModel::TrackRemote,
                )
            } else {
                ProvisionStepModel::Done(
                    Err("Remote branch origin/"@ + branch + " not found"@),
                )
            },
        },
        ProvisionStateModel::CheckoutCreate => match o {
            OutcomeModel::NotFound { message } => ProvisionStepModel::Done(
                Err("Failed to execute git checkout: "@ + message),
            ),
            OutcomeModel::Failed { message } => ProvisionStepModel::Done(
                Err("Failed to execute git checkout: "@ + message),
            ),
            OutcomeModel::Exited { success, .. } => if success {
                spec_to_copy_stage(source)
            } else {
                ProvisionStepModel::Run(
                    checkout_model(dest, branch, false),
                    ProvisionStateModel::CheckoutPlain,
                )
            },
        },
        ProvisionStateModel::CheckoutPlain => match o {
            OutcomeModel::NotFound { message } => ProvisionStepModel::Done(
                Err("Failed to execute git checkout: "@ + message),
            ),
            OutcomeModel::Failed { message } => ProvisionStepModel::Done(
                Err("Failed to execute git checkout: "@ + message),
            ),
            OutcomeModel::Exited { success, stderr, .. } => if success {
                spec_to_copy_stage(source)
            } else {
                ProvisionStepModel::Done(Err("Git checkout failed: "@ + lossy_of(stderr)))
            },
        },
        ProvisionStateModel::TrackRemote => match o {
            OutcomeModel::NotFound { message } => ProvisionStepModel::Done(
                Err("Failed to execute git checkout: "@ + message),
            ),
            OutcomeModel::Failed { message } => ProvisionStepModel::Done(
                Err("Failed to execute git checkout: "@ + message),
            ),
            OutcomeModel::Exited { success, stderr, .. } => if success {
                spec_to_copy_stage(source)
            } else {
                ProvisionStepModel::Done(Err("Git checkout failed: "@ + lossy_of(stderr)))
            },
        },
        ProvisionStateModel::ListIgnored => match spec_list_ignored(o) {
            Ok(paths) => ProvisionStepModel::Done(
                Ok(spec_filter_paths(paths, entries_bytes(skips))),
            ),
            Err(e) => ProvisionStepModel::Done(Err(e)),
        },
    }
}

/// Starts a provisioning run: the clone or the worktree creation.
pub fn create_divergence(
    source: &str,
    dest: &str,
    branch: &str,
    mode: DivergenceMode,
    use_existing: bool,
) -> (r: (CmdSpec, ProvisionState))
    ensures
        mode == DivergenceMode::Clone ==> r.0@ =~~= clone_model(source@, dest@) && r.1@
            == ProvisionStateModel::CloneRunning,
        mode == DivergenceMode::Worktree ==> r.0@ =~~= worktree_add_model(
            source@,
            dest@,
            branch@,
            use_existing,
        ) && r.1@ == ProvisionStateModel::WorktreeRunning,
{
    match mode {
        DivergenceMode::Clone => (clone_cmd(source, dest), ProvisionState::CloneRunning),
        DivergenceMode::Worktree => (
            worktree_add_cmd(source, dest, branch, use_existing),
            ProvisionState::WorktreeRunning,
        ),
    }
}

/// Drives the provisioning machine one transition.
pub fn provision_step(
    source: &str,
    dest: &str,
    branch: &str,
    skip_list: &Vec<String>,
    use_existing: bool,
    state: ProvisionState,
    outcome: &RunOutcome,
) -> (r: ProvisionStep)
    ensures
        r@ =~~= spec_provision_step(
            source@,
            dest@,
            branch@,
            skip_list.deep_view(),
            use_existing,
            state@,
            outcome@,
        ),
{
    match state {
        ProvisionState::CloneRunning => match outcome {
            RunOutcome::NotFound { message } => ProvisionStep::Done(
                Err(prefixed("Failed to execute git clone: ", message.as_str())),
            ),
            RunOutcome::Failed { message } => ProvisionStep::Done(
                Err(prefixed("Failed to execute git clone: ", message.as_str())),
            ),
            RunOutcome::Exited { success, stderr, .. } => {
                if *success {
                    ProvisionStep::Run(get_url_cmd(source), ProvisionState::ReadSourceRemote)
                } else {
                    let tail = lossy_string(stderr.as_slice());
                    ProvisionStep::Done(Err(prefixed("Git clone failed: ", tail.as_str())))
                }
            },
        },
        ProvisionState::WorktreeRunning => match outcome {
            RunOutcome::NotFound { message } => ProvisionStep::Done(
                Err(prefixed("Failed to execute git worktree add: ", message.as_str())),
            ),
            RunOutcome::Failed { message } => ProvisionStep::Done(
                Err(prefixed("Failed to execute git worktree add: ", message.as_str())),
            ),
            RunOutcome::Exited { success, stderr, .. } => {
                if *success {
                    to_copy_stage(source)
                } else {
                    let tail = lossy_string(stderr.as_slice());
                    ProvisionStep::Done(Err(prefixed("Git worktree add failed: ", tail.as_str())))
                }
            },
        },
        ProvisionState::ReadSourceRemote => match outcome {
            RunOutcome::NotFound { message } => ProvisionStep::Done(
                Err(prefixed("Failed to get remote URL: ", message.as_str())),
            ),
            RunOutcome::Failed { message } => ProvisionStep::Done(
                Err(prefixed("Failed to get remote URL: ", message.as_str())),
            ),
            RunOutcome::Exited { success, stdout, .. } => {
                if *success {
                    let t = trim_ascii(stdout.as_slice());
                    let url = lossy_string(t.as_slice());
                    let cmd = set_url_cmd(dest, url.as_str());
                    ProvisionStep::Run(cmd, ProvisionState::SetUrl { url })
                } else {
                    ProvisionStep::Run(remove_url_cmd(dest), ProvisionState::RemoveOrigin)
                }
            },
        },
        ProvisionState::SetUrl { url } => match outcome {
            RunOutcome::NotFound { message } => ProvisionStep::Done(
                Err(prefixed("Failed to set origin URL: ", message.as_str())),
            ),
            RunOutcome::Failed { message } => ProvisionStep::Done(
                Err(prefixed("Failed to set origin URL: ", message.as_str())),
            ),
            RunOutcome::Exited { success, .. } => {
                if *success {
                    next_checkout(dest, branch, use_existing)
                } else {
                    let cmd = add_url_cmd(dest, url.as_str());
                    ProvisionStep::Run(cmd, ProvisionState::AddUrl { url })
                }
            },
        },
        ProvisionState::AddUrl { .. } => match outcome {
            RunOutcome::NotFound { message } => ProvisionStep::Done(
                Err(prefixed("Failed to add origin URL: ", message.as_str())),
            ),
            RunOutcome::Failed { message } => ProvisionStep::Done(
                Err(prefixed("Failed to add origin URL: ", message.as_str())),
            ),
            RunOutcome::Exited { success, stderr, .. } => {
                if *success {
                    next_checkout(dest, branch, use_existing)
                } else {
                    let tail = lossy_string(stderr.as_slice());
                    ProvisionStep::Done(Err(prefixed("Failed to set origin URL: ", tail.as_str())))
                }
            },
        },
        ProvisionState::RemoveOrigin => match outcome {
            RunOutcome::NotFound { message } => ProvisionStep::Done(
                Err(prefixed("Failed to remove origin URL: ", message.as_str())),
            ),
            RunOutcome::Failed { message } => ProvisionStep::Done(
                Err(prefixed("Failed to remove origin URL: ", message.as_str())),
            ),
            RunOutcome::Exited { success, stderr, .. } => {
                if *success {
                    next_checkout(dest, branch, use_existing)
                } else {
                    let tail = lossy_string(stderr.as_slice());
                    ProvisionStep::Done(
                        Err(prefixed("Failed to remove origin URL: ", tail.as_str())),
                    )
                }
            },
        },
        ProvisionState::FetchBeforeCheckout => ProvisionStep::Run(
            branch_ref_cmd(dest, branch, false),
            ProvisionState::CheckLocalRef,
        ),
        ProvisionState::CheckLocalRef => match outcome {
            RunOutcome::NotFound { message } => ProvisionStep::Done(
                Err(prefixed("Failed to execute git show-ref: ", message.as_str())),
            ),
            RunOutcome::Failed { message } => ProvisionStep::Done(
                Err(prefixed("Failed to execute git show-ref: ", message.as_str())),
            ),
            RunOutcome::Exited { success, .. } => {
                if *success {
                    ProvisionStep::Run(
                        checkout_cmd(dest, branch, false),
                        ProvisionState::CheckoutPlain,
                    )
                } else {
                    ProvisionStep::Run(
                        branch_ref_cmd(dest, branch, true),
                        ProvisionState::CheckRemoteRef,
                    )
                }
            },
        },
        ProvisionState::CheckRemoteRef => match outcome {
            RunOutcome::NotFound { message } => ProvisionStep::Done(
                Err(prefixed("Failed to execute git show-ref: ", message.as_str())),
            ),
            RunOutcome::Failed { message } => ProvisionStep::Done(
                Err(prefixed("Failed to execute git show-ref: ", message.as_str())),
            ),
            RunOutcome::Exited { success, .. } => {
                if *success {
                    ProvisionStep::Run(track_cmd(dest, branch), ProvisionState::TrackRemote)
                } else {
                    let mut m = prefixed("Remote branch origin/", branch);
                    m.append(" not found");
                    ProvisionStep::Done(Err(m))
                }
            },
        },
        ProvisionState::CheckoutCreate => match outcome {
            RunOutcome::NotFound { message } => ProvisionStep::Done(
                Err(prefixed("Failed to execute git checkout: ", message.as_str())),
            ),
            RunOutcome::Failed { message } => ProvisionStep::Done(
                Err(prefixed("Failed to execute git checkout: ", message.as_str())),
            ),
            RunOutcome::Exited { success, .. } => {
                if *success {
                    to_copy_stage(source)
                } else {
                    ProvisionStep::Run(
                        checkout_cmd(dest, branch, false),
                        ProvisionState::CheckoutPlain,
                    )
                }
            },
        },
        ProvisionState::CheckoutPlain => match outcome {
            RunOutcome::NotFound { message } => ProvisionStep::Done(
                Err(prefixed("Failed to execute git checkout: ", message.as_str())),
            ),
            RunOutcome::Failed { message } => ProvisionStep::Done(
                Err(prefixed("Failed to execute git checkout: ", message.as_str())),
            ),
            RunOutcome::Exited { success, stderr, .. } => {
                if *success {
                    to_copy_stage(source)
                } else {
                    let tail = lossy_string(stderr.as_slice());
                    ProvisionStep::Done(Err(prefixed("Git checkout failed: ", tail.as_str())))
                }
            },
        },
        ProvisionState::TrackRemote => match outcome {
            RunOutcome::NotFound { message } => ProvisionStep::Done(
                Err(prefixed("Failed to execute git checkout: ", message.as_str())),
            ),
            RunOutcome::Failed { message } => ProvisionStep::Done(
                Err(prefixed("Failed to execute git checkout: ", message.as_str())),
            ),
            RunOutcome::Exited { success, stderr, .. } => {
                if *success {
                    to_copy_stage(source)
                } else {
                    let tail = lossy_string(stderr.as_slice());
                    ProvisionStep::Done(Err(prefixed("Git checkout failed: ", tail.as_str())))
                }
            },
        },
        ProvisionState::ListIgnored => match list_ignored_output(outcome) {
            Ok(paths) => {
                let kept = filter_ignored_paths(&paths, skip_list);
                ProvisionStep::Done(Ok(kept))
            },
            Err(e) => ProvisionStep::Done(Err(e)),
        },
    }
}

/// The origin rewrite carries exactly the URL the source reported, and
/// so does the fallback that adds the remote afresh: a provisioned
/// clone's origin is the source's origin.
pub proof fn lemma_origin_rewired_to_source(
    source: Seq<char>,
    dest: Seq<char>,
    branch: Seq<char>,
    skips: Seq<Seq<char>>,
    use_existing: bool,
    read: OutcomeModel,
    set_failed: OutcomeModel,
)
    requires
        read matches OutcomeModel::Exited { success: true, .. },
        set_failed matches OutcomeModel::Exited { success: false, .. },
    ensures
        read matches OutcomeModel::Exited { stdout, .. } ==> {
            let url = lossy_of(spec_trim(stdout));
            spec_provision_step(
                source,
                dest,
                branch,
                skips,
                use_existing,
                ProvisionStateModel::ReadSourceRemote,
                read,
            ) == ProvisionStepModel::Run(
                set_url_model(dest, url),
                ProvisionStateModel::SetUrl { url },
            ) && spec_provision_step(
                source,
                dest,
                branch,
                skips,
                use_existing,
                ProvisionStateModel::SetUrl { url },
                set_failed,
            ) == ProvisionStepModel::Run(
                add_url_model(dest, url),
                ProvisionStateModel::AddUrl { url },
            )
        },
{
}

/// When the source has no origin to read, the clone does not keep the
/// default origin a local clone is born with: the machine removes it,
/// and only a successful removal reaches the checkout stage.
pub proof fn lemma_absent_origin_removed(
    source: Seq<char>,
    dest: Seq<char>,
    branch: Seq<char>,
    skips: Seq<Seq<char>>,
    use_existing: bool,
    read: OutcomeModel,
    removal: OutcomeModel,
)
    requires
        read matches OutcomeModel::Exited { success: false, .. },
        removal matches OutcomeModel::Exited { success: true, .. },
    ensures
        spec_provision_step(
            source,
            dest,
            branch,
            skips,
            use_existing,
            ProvisionStateModel::ReadSourceRemote,
            read,
        ) == ProvisionStepModel::Run(remove_url_model(dest), ProvisionStateModel::RemoveOrigin),
        spec_provision_step(
            source,
            dest,
            branch,
            skips,
            use_existing,
            ProvisionStateModel::RemoveOrigin,
            removal,
        ) == spec_next_checkout(dest, branch, use_existing),
{
}

/// Every checkout the machine ever emits names the requested branch:
/// whichever path a run takes, the workspace ends up on that branch or
/// the run fails.
pub proof fn lemma_checkout_names_branch(
    source: Seq<char>,
    dest: Seq<char>,
    branch: Seq<char>,
    skips: Seq<Seq<char>>,
    use_existing: bool,
    st: ProvisionStateModel,
    o: OutcomeModel,
)
    ensures
        forall|c: CmdModel|
            {
                (#[trigger] spec_provision_step(source, dest, branch, skips, use_existing, st, o)
                    == ProvisionStepModel::Run(c, ProvisionStateModel::CheckoutCreate)) ==> c
                    == checkout_model(dest, branch, true)
            },
        forall|c: CmdModel|
            {
                (#[trigger] spec_provision_step(source, dest, branch, skips, use_existing, st, o)
                    == ProvisionStepModel::Run(c, ProvisionStateModel::CheckoutPlain)) ==> c
                    == checkout_model(dest, branch, false)
            },
        forall|c: CmdModel|
            {
                (#[trigger] spec_provision_step(source, dest, branch, skips, use_existing, st, o)
                    == ProvisionStepModel::Run(c, ProvisionStateModel::TrackRemote)) ==> c
                    == track_model(dest, branch)
            },
{
}

/// The carry-over stage is entered only when the mode-specific setup
/// finished and a checkout (or the worktree creation, which embeds one)
/// succeeded: whatever path a run takes, the workspace stands on its
/// branch before anything is copied into it.
pub proof fn lemma_copy_stage_follows_checkout(
    source: Seq<char>,
    dest: Seq<char>,
    branch: Seq<char>,
    skips: Seq<Seq<char>>,
    use_existing: bool,
    st: ProvisionStateModel,
    o: OutcomeModel,
    c: CmdModel,
    next: ProvisionStateModel,
)
    requires
        spec_provision_step(source, dest, branch, skips, use_existing, st, o)
            == ProvisionStepModel::Run(c, next),
        next == ProvisionStateModel::ListIgnored,
    ensures
        st == ProvisionStateModel::WorktreeRunning || st == ProvisionStateModel::CheckoutCreate
            || st == ProvisionStateModel::CheckoutPlain || st == ProvisionStateModel::TrackRemote,
        o matches OutcomeModel::Exited { success: true, .. },
{
}

/// A run succeeds only out of the carry-over stage, and what it hands
/// back is exactly the ignored-path listing with the skip list applied.
pub proof fn lemma_success_carries_filtered_paths(
    source: Seq<char>,
    dest: Seq<char>,
    branch: Seq<char>,
    skips: Seq<Seq<char>>,
    use_existing: bool,
    st: ProvisionStateModel,
    o: OutcomeModel,
)
    ensures
        forall|paths: Seq<Seq<char>>|
            {
                (#[trigger] spec_provision_step(source, dest, branch, skips, use_existing, st, o)
                    == ProvisionStepModel::Done(Ok::<Seq<Seq<char>>, Seq<char>>(paths))) ==> {
                    &&& st == ProvisionStateModel::ListIgnored
                    &&& spec_list_ignored(o) matches Ok(listed) && paths == spec_filter_paths(
                        listed,
                        entries_bytes(skips),
                    )
                }
            },
{
}

} // verus!
