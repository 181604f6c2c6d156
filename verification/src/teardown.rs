//! Workspace teardown.
//!
//! Destruction is gated: a path outside the workspaces root is refused
//! before anything touches the filesystem. Inside the root, a linked
//! worktree is detached through the VCS tool (it shares object storage
//! with its source and must not be deleted outright), run from the
//! repository the worktree's marker file points back to; a clone is
//! removed recursively by the caller.

use vstd::prelude::*;
use vstd::string::StringSliceAdditionalSpecFns;
use crate::bytes::{spec_starts_with, spec_trim, starts_with, trim_ascii, eq_bytes};
use crate::text::{lossy_of, lossy_string};
use crate::run::{CmdSpec, CmdModel, Program, ProgramModel, arg};

verus! {

/// Whether `path` lies inside `root`: the root itself, or below it.
pub open spec fn spec_inside_root(path: Seq<u8>, root: Seq<u8>) -> bool {
    path == root || spec_starts_with(path, root.push(0x2f))
}

/// Decides path containment in the workspaces root.
pub fn is_inside_root(path: &str, root: &str) -> (r: bool)
    ensures
        r == spec_inside_root(path.spec_bytes(), root.spec_bytes()),
{
    let pb = path.as_bytes();
    let rb = root.as_bytes();
    if eq_bytes(pb, rb) {
        return true;
    }
    let mut rslash: Vec<u8> = Vec::new();
    let mut i: usize = 0;
    while i < rb.len()
        invariant
            i <= rb.len(),
            rslash@ == rb@.subrange(0, i as int),
        decreases rb.len() - i,
    {
        rslash.push(rb[i]);
        assert(rslash@ =~= rb@.subrange(0, i + 1));
        i += 1;
    }
    rslash.push(0x2f);
    proof {
        assert(rslash@ =~= rb@.push(0x2f));
    }
    starts_with(pb, rslash.as_slice())
}

/// The repository a linked worktree's marker file points back to: the
/// marker holds a pointer line whose target is the worktree's private
/// directory under the repository.
pub open spec fn spec_gitdir_target(contents: Seq<u8>) -> Option<Seq<char>> {
    let t = spec_trim(contents);
    if spec_starts_with(t, "gitdir:".spec_bytes()) {
        Some(lossy_of(spec_trim(t.skip("gitdir:".spec_bytes().len() as int))))
    } else {
        None
    }
}

/// Reads the pointer out of a linked worktree's marker file contents.
pub fn worktree_gitdir_target(contents: &[u8]) -> (r: Option<String>)
    ensures
        match r {
            Some(g) => spec_gitdir_target(contents@) == Some(g@),
            None => spec_gitdir_target(contents@) is None,
        },
{
    let t = trim_ascii(contents);
    let pre = "gitdir:".as_bytes();
    if starts_with(t.as_slice(), pre) {
        let tail = &t.as_slice()[pre.len()..t.len()];
        proof {
            assert(tail@ =~= spec_trim(contents@).skip("gitdir:".spec_bytes().len() as int));
        }
        let target = trim_ascii(tail);
        Some(lossy_string(target.as_slice()))
    } else {
        None
    }
}

/// Index of the last separator, or minus one when there is none.
pub open spec fn last_sep(b: Seq<u8>, sep: u8) -> int
    decreases b.len(),
{
    if b.len() == 0 {
        -1
    } else if b.last() == sep {
        b.len() - 1
    } else {
        last_sep(b.drop_last(), sep)
    }
}

proof fn lemma_last_sep_at(b: Seq<u8>, sep: u8, k: int)
    requires
        -1 <= k < b.len(),
        k >= 0 ==> b[k] == sep,
        forall|j: int| k < j < b.len() ==> b[j] != sep,
    ensures
        last_sep(b, sep) == k,
    decreases b.len(),
{
    if b.len() > 0 && b.last() != sep {
        assert(k < b.len() - 1);
        assert(forall|j: int| k < j < b.len() - 1 ==> b.drop_last()[j] != sep);
        lemma_last_sep_at(b.drop_last(), sep, k);
    }
}

/// The path with its final component removed; unchanged when it has no
/// separator.
pub open spec fn spec_drop_component(b: Seq<u8>) -> Seq<u8> {
    if last_sep(b, 0x2f) >= 0 {
        b.take(last_sep(b, 0x2f))
    } else {
        b
    }
}

fn drop_component(b: &[u8]) -> (r: Vec<u8>)
    ensures
        r@ == spec_drop_component(b@),
{
    let mut i: usize = b.len();
    while i > 0 && b[i - 1] != 0x2f
        invariant
            i <= b.len(),
            forall|j: int| i <= j < b.len() ==> b@[j] != 0x2f,
        decreases i,
    {
        i -= 1;
    }
    proof {
        lemma_last_sep_at(b@, 0x2f, i - 1);
    }
    let n: usize = if i > 0 {
        i - 1
    } else {
        b.len()
    };
    let mut out: Vec<u8> = Vec::new();
    let mut k: usize = 0;
    while k < n
        invariant
            k <= n <= b.len(),
            out@ == b@.subrange(0, k as int),
        decreases n - k,
    {
        out.push(b[k]);
        assert(out@ =~= b@.subrange(0, k + 1));
        k += 1;
    }
    proof {
        assert(out@ =~= spec_drop_component(b@));
    }
    out
}

/// The directory the detaching invocation runs in: the worktree's
/// private directory lies two components below the repository directory,
/// so dropping both yields a place git resolves the repository from.
pub open spec fn spec_repo_context(gitdir: Seq<u8>) -> Seq<char> {
    lossy_of(spec_drop_component(spec_drop_component(gitdir)))
}

fn repo_context(gitdir: &str) -> (r: String)
    ensures
        r@ == spec_repo_context(gitdir.spec_bytes()),
{
    let once = drop_component(gitdir.as_bytes());
    let twice = drop_component(once.as_slice());
    lossy_string(twice.as_slice())
}

/// The detaching invocation for a linked worktree, run in the given
/// repository context.
pub open spec fn worktree_remove_model(path: Seq<char>, context: Seq<char>) -> CmdModel {
    CmdModel {
        program: ProgramModel::Git,
        args: seq!["worktree"@, "remove"@, "--force"@, path],
        cwd: Some(context),
    }
}

fn worktree_remove_cmd(path: &str, context: String) -> (c: CmdSpec)
    ensures
        c@ =~~= worktree_remove_model(path@, context@),
{
    let mut args: Vec<String> = Vec::new();
    args.push(arg("worktree"));
    args.push(arg("remove"));
    args.push(arg("--force"));
    args.push(arg(path));
    CmdSpec { program: Program::Git, args, cwd: Some(context) }
}

/// What teardown does with a path.
pub enum TeardownPlan {
    /// The path lies outside the workspaces root: refused, with the
    /// error to report; the filesystem is not touched.
    Refuse(String),
    /// The path does not exist: nothing to do, success.
    Nothing,
    /// A linked worktree: run the detaching invocation.
    DetachWorktree(CmdSpec),
    /// A clone: the caller removes the directory tree recursively.
    RemoveTree,
}

/// Spec-level image of a [`TeardownPlan`].
#[verifier::ext_equal]
pub enum TeardownPlanModel {
    Refuse(Seq<char>),
    Nothing,
    DetachWorktree(CmdModel),
    RemoveTree,
}

impl View for TeardownPlan {
    type V = TeardownPlanModel;

    open spec fn view(&self) -> TeardownPlanModel {
        match self {
            TeardownPlan::Refuse(e) => TeardownPlanModel::Refuse(e@),
            TeardownPlan::Nothing => TeardownPlanModel::Nothing,
            TeardownPlan::DetachWorktree(c) => TeardownPlanModel::DetachWorktree(c@),
            TeardownPlan::RemoveTree => TeardownPlanModel::RemoveTree,
        }
    }
}

/// The repository context the detaching invocation gets: derived from
/// the worktree's marker pointer when the caller read one, the worktree
/// path itself otherwise.
pub open spec fn spec_detach_context(path: Seq<char>, gitdir: Option<Seq<u8>>) -> Seq<char> {
    match gitdir {
        Some(g) => spec_repo_context(g),
        None => path,
    }
}

/// The teardown decision: containment first, then what the caller
/// observed of the path. `exists` and `linked_worktree` are the caller's
/// filesystem observations; `worktree_gitdir` is the pointer read from
/// the marker file of a linked worktree. All are consulted only for a
/// contained path.
pub open spec fn spec_teardown_plan(
    path_b: Seq<u8>,
    root_b: Seq<u8>,
    path: Seq<char>,
    exists: bool,
    linked_worktree: bool,
    gitdir: Option<Seq<u8>>,
) -> TeardownPlanModel {
    if !spec_inside_root(path_b, root_b) {
        TeardownPlanModel::Refuse("Cannot delete path outside of divergence repos directory"@)
    } else if !exists {
        TeardownPlanModel::Nothing
    } else if linked_worktree {
        TeardownPlanModel::DetachWorktree(
            worktree_remove_model(path, spec_detach_context(path, gitdir)),
        )
    } else {
        TeardownPlanModel::RemoveTree
    }
}

/// Plans the teardown of one workspace path.
pub fn teardown_plan(
    path: &str,
    repos_root: &str,
    exists: bool,
    linked_worktree: bool,
    worktree_gitdir: &Option<String>,
) -> (r: TeardownPlan)
    ensures
        r@ =~~= spec_teardown_plan(
            path.spec_bytes(),
            repos_root.spec_bytes(),
            path@,
            exists,
            linked_worktree,
            match worktree_gitdir {
                Some(g) => Some(vstd::utf8::encode_utf8(g@)),
                None => None,
            },
        ),
{
    if !is_inside_root(path, repos_root) {
        TeardownPlan::Refuse(arg("Cannot delete path outside of divergence repos directory"))
    } else if !exists {
        TeardownPlan::Nothing
    } else if linked_worktree {
        let context = match worktree_gitdir {
            Some(g) => repo_context(g.as_str()),
            None => path.to_owned(),
        };
        TeardownPlan::DetachWorktree(worktree_remove_cmd(path, context))
    } else {
        TeardownPlan::RemoveTree
    }
}

/// A path outside the workspaces root is always refused, whatever the
/// filesystem observations say: nothing is detached and nothing is
/// removed.
pub proof fn lemma_outside_root_refused(
    path_b: Seq<u8>,
    root_b: Seq<u8>,
    path: Seq<char>,
    exists: bool,
    linked_worktree: bool,
    gitdir: Option<Seq<u8>>,
)
    requires
        !spec_inside_root(path_b, root_b),
    ensures
        spec_teardown_plan(path_b, root_b, path, exists, linked_worktree, gitdir)
            == TeardownPlanModel::Refuse(
            "Cannot delete path outside of divergence repos directory"@,
        ),
{
}

/// Inside the root, a linked worktree is detached through the VCS tool
/// and a clone is removed recursively: the two kinds never take each
/// other's removal path.
pub proof fn lemma_teardown_by_kind(
    path_b: Seq<u8>,
    root_b: Seq<u8>,
    path: Seq<char>,
    gitdir: Option<Seq<u8>>,
)
    requires
        spec_inside_root(path_b, root_b),
    ensures
        spec_teardown_plan(path_b, root_b, path, true, true, gitdir)
            == TeardownPlanModel::DetachWorktree(
            worktree_remove_model(path, spec_detach_context(path, gitdir)),
        ),
        spec_teardown_plan(path_b, root_b, path, true, false, gitdir)
            == TeardownPlanModel::RemoveTree,
{
}

} // verus!
