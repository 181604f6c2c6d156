//! Remote-branch queries: the origin URL, the remote branch listing, and
//! the merged-branch check.

use vstd::prelude::*;
use vstd::string::StringSliceAdditionalSpecFns;
use crate::bytes::{
    spec_trim, spec_lines, spec_starts_with, trim_ascii, split_lines, starts_with, eq_bytes,
};
use crate::text::{lossy_of, lossy_string};
use crate::run::{
    CmdSpec, CmdModel, ProgramModel, RunOutcome, OutcomeModel, arg, prefixed, git_in,
};
use crate::provision::{get_url_model, get_url_cmd};
use crate::branch::{fetch_model, fetch_cmd};

verus! {

/// What the origin-URL read yields: the trimmed URL when the remote is
/// configured, nothing when it is not.
pub open spec fn spec_remote_url(o: OutcomeModel) -> Result<Option<Seq<char>>, Seq<char>> {
    match o {
        OutcomeModel::NotFound { message } => Err("Failed to get remote URL: "@ + message),
        OutcomeModel::Failed { message } => Err("Failed to get remote URL: "@ + message),
        OutcomeModel::Exited { success, stdout, .. } => if success {
            Ok(Some(lossy_of(spec_trim(stdout))))
        } else {
            Ok(None)
        },
    }
}

/// Interprets the outcome of the origin-URL read.
pub fn get_remote_url(outcome: &RunOutcome) -> (r: Result<Option<String>, String>)
    ensures
        match r {
            Ok(Some(u)) => spec_remote_url(outcome@) == Ok::<Option<Seq<char>>, Seq<char>>(
                Some(u@),
            ),
            Ok(None) => spec_remote_url(outcome@) == Ok::<Option<Seq<char>>, Seq<char>>(None),
            Err(e) => spec_remote_url(outcome@) == Err::<Option<Seq<char>>, Seq<char>>(e@),
        },
{
    match outcome {
        RunOutcome::NotFound { message } => Err(
            prefixed("Failed to get remote URL: ", message.as_str()),
        ),
        RunOutcome::Failed { message } => Err(
            prefixed("Failed to get remote URL: ", message.as_str()),
        ),
        RunOutcome::Exited { success, stdout, .. } => {
            if *success {
                Ok(Some(crate::text::lossy_trimmed_string(stdout.as_slice())))
            } else {
                Ok(None)
            }
        },
    }
}

/// Strict lexicographic byte order, the order branch names are listed in.
pub open spec fn lex_lt(a: Seq<u8>, b: Seq<u8>) -> bool
    decreases a.len() + b.len(),
{
    if b.len() == 0 {
        false
    } else if a.len() == 0 {
        true
    } else if a[0] < b[0] {
        true
    } else if a[0] > b[0] {
        false
    } else {
        lex_lt(a.skip(1), b.skip(1))
    }
}

proof fn lemma_lex_skip(a: Seq<u8>, b: Seq<u8>, i: int)
    requires
        0 <= i <= a.len(),
        i <= b.len(),
        forall|j: int| 0 <= j < i ==> a[j] == b[j],
    ensures
        lex_lt(a, b) == lex_lt(a.skip(i), b.skip(i)),
    decreases i,
{
    if i == 0 {
        assert(a.skip(0) =~= a);
        assert(b.skip(0) =~= b);
    } else {
        assert(a.len() > 0 && b.len() > 0 && a[0] == b[0]);
        assert(a.skip(1).skip(i - 1) =~= a.skip(i));
        assert(b.skip(1).skip(i - 1) =~= b.skip(i));
        assert(forall|j: int| 0 <= j < i - 1 ==> a.skip(1)[j] == b.skip(1)[j]);
        lemma_lex_skip(a.skip(1), b.skip(1), i - 1);
    }
}

/// Exactly one of `a < b`, `b < a`, `a == b` holds.
proof fn lemma_lex_connex(a: Seq<u8>, b: Seq<u8>)
    ensures
        lex_lt(a, b) || lex_lt(b, a) || a == b,
        lex_lt(a, b) ==> !lex_lt(b, a) && a != b,
    decreases a.len() + b.len(),
{
    if a.len() == 0 && b.len() == 0 {
        assert(a =~= b);
    } else if a.len() > 0 && b.len() > 0 && a[0] == b[0] {
        lemma_lex_connex(a.skip(1), b.skip(1));
        if a.skip(1) == b.skip(1) {
            assert(a =~= b) by {
                assert(forall|k: int| 1 <= k < a.len() ==> a[k] == a.skip(1)[k - 1]);
                assert(forall|k: int| 1 <= k < b.len() ==> b[k] == b.skip(1)[k - 1]);
            }
        }
    }
}

proof fn lemma_lex_trans(a: Seq<u8>, b: Seq<u8>, c: Seq<u8>)
    requires
        lex_lt(a, b),
        lex_lt(b, c),
    ensures
        lex_lt(a, c),
    decreases a.len() + b.len() + c.len(),
{
    if a.len() > 0 && b.len() > 0 && c.len() > 0 {
        if a[0] == b[0] && b[0] == c[0] {
            lemma_lex_trans(a.skip(1), b.skip(1), c.skip(1));
        }
    }
}

/// Compares two byte strings in lexicographic order.
pub fn lex_lt_bytes(a: &[u8], b: &[u8]) -> (r: bool)
    ensures
        r == lex_lt(a@, b@),
{
    let n: usize = if a.len() < b.len() {
        a.len()
    } else {
        b.len()
    };
    let mut i: usize = 0;
    while i < n && a[i] == b[i]
        invariant
            i <= n,
            n == (if a@.len() < b@.len() {
                a@.len()
            } else {
                b@.len()
            }),
            forall|j: int| 0 <= j < i ==> a@[j] == b@[j],
        decreases n - i,
    {
        i += 1;
    }
    proof {
        lemma_lex_skip(a@, b@, i as int);
    }
    if i < a.len() && i < b.len() {
        a[i] < b[i]
    } else {
        a.len() < b.len()
    }
}

/// The byte encoding a branch-name string sorts by.
pub open spec fn str_bytes(s: Seq<char>) -> Seq<u8> {
    vstd::utf8::encode_utf8(s)
}

/// Strictly ascending in lexicographic byte order: sorted and
/// duplicate-free.
pub open spec fn strictly_sorted_strs(s: Seq<Seq<char>>) -> bool {
    forall|i: int, j: int| 0 <= i < j < s.len() ==> lex_lt(str_bytes(s[i]), str_bytes(s[j]))
}

/// Inserts a name into a strictly sorted list, keeping it strictly
/// sorted; a name already present is dropped.
fn sorted_insert_str(out: &mut Vec<String>, x: String)
    requires
        strictly_sorted_strs(old(out).deep_view()),
    ensures
        strictly_sorted_strs(final(out).deep_view()),
        forall|y: Seq<char>|
            #[trigger] final(out).deep_view().contains(y) <==> (old(out).deep_view().contains(y)
                || y == x@),
{
    let ghost sv = out.deep_view();
    let mut i: usize = 0;
    while i < out.len() && lex_lt_bytes(out[i].as_str().as_bytes(), x.as_str().as_bytes())
        invariant
            i <= out.len(),
            sv == out.deep_view(),
            strictly_sorted_strs(sv),
            forall|j: int| 0 <= j < i ==> lex_lt(str_bytes(sv[j]), str_bytes(x@)),
        decreases out.len() - i,
    {
        proof {
            assert(sv[i as int] =~= out@[i as int]@);
        }
        i += 1;
    }
    proof {
        if i < sv.len() {
            assert(sv[i as int] =~= out@[i as int]@);
        }
    }
    if i < out.len() && eq_bytes(out[i].as_str().as_bytes(), x.as_str().as_bytes()) {
        proof {
            vstd::utf8::encode_utf8_decode_utf8(sv[i as int]);
            vstd::utf8::encode_utf8_decode_utf8(x@);
            assert(sv[i as int] == x@);
            assert(sv.contains(x@));
        }
        return ;
    }
    proof {
        if i < sv.len() {
            lemma_lex_connex(str_bytes(sv[i as int]), str_bytes(x@));
            assert(str_bytes(sv[i as int]) != str_bytes(x@));
            assert(lex_lt(str_bytes(x@), str_bytes(sv[i as int])));
        }
    }
    out.insert(i, x);
    proof {
        let nv = out.deep_view();
        assert(nv.len() == sv.len() + 1);
        assert(forall|j: int| 0 <= j < i ==> nv[j] =~= sv[j]);
        assert(nv[i as int] =~= x@);
        assert(forall|j: int| i < j < nv.len() ==> nv[j] =~= sv[j - 1]);
        assert(strictly_sorted_strs(nv)) by {
            assert forall|p: int, q: int| 0 <= p < q < nv.len() implies lex_lt(
                str_bytes(nv[p]),
                str_bytes(nv[q]),
            ) by {
                if q > i && p == i {
                    if q - 1 > i {
                        lemma_lex_trans(
                            str_bytes(x@),
                            str_bytes(sv[i as int]),
                            str_bytes(sv[q - 1]),
                        );
                    }
                }
            }
        }
        assert(forall|y: Seq<char>|
            #[trigger] nv.contains(y) <==> (sv.contains(y) || y == x@)) by {
            assert forall|y: Seq<char>| #[trigger] nv.contains(y) implies (sv.contains(y) || y
                == x@) by {
                let w = choose|w: int| 0 <= w < nv.len() && nv[w] == y;
                if w < i {
                    assert(sv[w] == y);
                } else if w > i {
                    assert(sv[w - 1] == y);
                }
            }
            assert forall|y: Seq<char>| (sv.contains(y) || y == x@) implies #[trigger] nv.contains(
                y,
            ) by {
                if sv.contains(y) {
                    let w = choose|w: int| 0 <= w < sv.len() && sv[w] == y;
                    if w < i {
                        assert(nv[w] == y);
                    } else {
                        assert(nv[w + 1] == y);
                    }
                } else {
                    assert(nv[i as int] == y);
                }
            }
        }
    }
}

/// A single star-space marker, stripped repeatedly from the front of a
/// merged-branch line.
pub open spec fn strip_stars(l: Seq<u8>) -> Seq<u8>
    decreases l.len(),
{
    if spec_starts_with(l, seq![0x2au8, 0x20u8]) {
        strip_stars(l.skip(2))
    } else {
        l
    }
}

fn strip_stars_exec(l: &[u8]) -> (r: Vec<u8>)
    ensures
        r@ == strip_stars(l@),
{
    let mut start: usize = 0;
    proof {
        assert(l@.skip(0) =~= l@);
    }
    while l.len() - start >= 2 && l[start] == 0x2a && l[start + 1] == 0x20
        invariant
            start <= l.len(),
            strip_stars(l@) == strip_stars(l@.skip(start as int)),
        decreases l.len() - start,
    {
        proof {
            let rest = l@.skip(start as int);
            assert(rest.subrange(0, 2) =~= seq![0x2au8, 0x20u8]);
            assert(rest.skip(2) =~= l@.skip(start + 2));
        }
        start += 2;
    }
    proof {
        let rest = l@.skip(start as int);
        if spec_starts_with(rest, seq![0x2au8, 0x20u8]) {
            assert(rest[0] == 0x2a && rest[1] == 0x20) by {
                assert(rest.subrange(0, 2)[0] == rest[0]);
                assert(rest.subrange(0, 2)[1] == rest[1]);
            }
        }
        assert(strip_stars(l@.skip(start as int)) == l@.skip(start as int));
    }
    let mut out: Vec<u8> = Vec::new();
    let mut k: usize = start;
    while k < l.len()
        invariant
            start <= k <= l.len(),
            out@ == l@.subrange(start as int, k as int),
        decreases l.len() - k,
    {
        out.push(l[k]);
        assert(out@ =~= l@.subrange(start as int, k + 1));
        k += 1;
    }
    proof {
        assert(out@ =~= l@.skip(start as int));
    }
    out
}

/// Whether a merged-branch listing names the branch: each line is
/// trimmed, its current-branch marker stripped, and compared.
pub open spec fn spec_merged_lines_contain(stdout: Seq<u8>, branch: Seq<u8>) -> bool {
    exists|k: int|
        0 <= k < spec_lines(stdout).len() && strip_stars(spec_trim(#[trigger] spec_lines(
            stdout,
        )[k])) == branch
}

/// Scans a merged-branch listing for the branch.
pub fn merged_lines_contain(stdout: &[u8], branch: &str) -> (r: bool)
    ensures
        r == spec_merged_lines_contain(stdout@, branch.spec_bytes()),
{
    let lines = split_lines(stdout);
    let ghost linesv = lines.deep_view();
    let mut k: usize = 0;
    while k < lines.len()
        invariant
            k <= lines.len(),
            linesv == lines.deep_view(),
            linesv == spec_lines(stdout@),
            forall|j: int|
                0 <= j < k ==> strip_stars(spec_trim(#[trigger] linesv[j]))
                    != branch.spec_bytes(),
        decreases lines.len() - k,
    {
        proof {
            assert(linesv[k as int] =~= lines@[k as int]@);
        }
        let t = trim_ascii(lines[k].as_slice());
        let name = strip_stars_exec(t.as_slice());
        if eq_bytes(name.as_slice(), branch.as_bytes()) {
            return true;
        }
        k += 1;
    }
    false
}

/// The listing of remote-tracking branch references.
pub open spec fn for_each_ref_model(repo: Seq<char>) -> CmdModel {
    CmdModel {
        program: ProgramModel::Git,
        args: seq!["for-each-ref"@, "--format=%(refname:short)"@, "refs/remotes/origin"@],
        cwd: Some(repo),
    }
}

fn for_each_ref_cmd(repo: &str) -> (c: CmdSpec)
    ensures
        c@ =~~= for_each_ref_model(repo@),
{
    let mut args: Vec<String> = Vec::new();
    args.push(arg("for-each-ref"));
    args.push(arg("--format=%(refname:short)"));
    args.push(arg("refs/remotes/origin"));
    git_in(repo, args)
}

/// Whether a listing line survives: non-empty after trimming, and not
/// the remote's symbolic head pointer.
pub open spec fn line_kept(l: Seq<u8>) -> bool {
    spec_trim(l).len() > 0 && spec_trim(l) != "origin/HEAD".spec_bytes()
}

/// The branch name a listing line carries: the remote prefix stripped
/// when present.
pub open spec fn name_of_line(l: Seq<u8>) -> Seq<u8> {
    let t = spec_trim(l);
    if spec_starts_with(t, "origin/".spec_bytes()) {
        t.skip("origin/".spec_bytes().len() as int)
    } else {
        t
    }
}

/// Whether some surviving listing line renders to the name `y`.
pub open spec fn rendered_listed(stdout: Seq<u8>, y: Seq<char>) -> bool {
    exists|j: int|
        0 <= j < spec_lines(stdout).len() && line_kept(#[trigger] spec_lines(stdout)[j])
            && lossy_of(name_of_line(spec_lines(stdout)[j])) == y
}

/// Where a remote-branch listing stands between invocations.
pub enum RemoteBranchesState {
    /// The origin URL is being read; no URL means no listing.
    CheckUrl,
    /// The best-effort fetch is running.
    Fetching,
    /// The reference listing is running.
    Listing,
}

/// What the listing machine asks for next.
pub enum RemoteBranchesStep {
    Run(CmdSpec, RemoteBranchesState),
    Done(Result<Vec<String>, String>),
}

/// Starts a remote-branch listing: first the origin URL is read, since a
/// repository without one has nothing to list.
pub fn list_remote_branches(repo_path: &str) -> (r: (CmdSpec, RemoteBranchesState))
    ensures
        r.0@ =~~= crate::provision::get_url_model(repo_path@),
        r.1 is CheckUrl,
{
    (get_url_cmd(repo_path), RemoteBranchesState::CheckUrl)
}

/// Drives the remote-branch listing one transition. A successful listing
/// yields the surviving names sorted and duplicate-free: a name is in the
/// answer exactly when some listing line carries it.
pub fn remote_branches_step(
    repo_path: &str,
    state: RemoteBranchesState,
    outcome: &RunOutcome,
) -> (r: RemoteBranchesStep)
    ensures
        state is CheckUrl ==> (match spec_remote_url(outcome@) {
            Err(e) => r matches RemoteBranchesStep::Done(d) && d matches Err(e2) && e2@ == e,
            Ok(None) => r matches RemoteBranchesStep::Done(d) && d matches Err(e2) && e2@
                == "Remote origin is not configured for this repository"@,
            Ok(Some(_)) => r matches RemoteBranchesStep::Run(c, s) && c@ =~~= fetch_model(
                repo_path@,
            ) && s is Fetching,
        }),
        state is Fetching ==> (r matches RemoteBranchesStep::Run(c, s) && c@
            =~~= for_each_ref_model(repo_path@) && s is Listing),
        state is Listing ==> (match outcome@ {
            OutcomeModel::NotFound { message } => r matches RemoteBranchesStep::Done(d)
                && d matches Err(e2) && e2@ == "Failed to list remote branches: "@ + message,
            OutcomeModel::Failed { message } => r matches RemoteBranchesStep::Done(d)
                && d matches Err(e2) && e2@ == "Failed to list remote branches: "@ + message,
            OutcomeModel::Exited { success, stdout, stderr, .. } => if success {
                r matches RemoteBranchesStep::Done(d) && d matches Ok(branches)
                    && strictly_sorted_strs(branches.deep_view()) && forall|y: Seq<char>|
                    #[trigger] branches.deep_view().contains(y) <==> rendered_listed(stdout, y)
            } else {
                r matches RemoteBranchesStep::Done(d) && d matches Err(e2) && e2@
                    == "Failed to list remote branches: "@ + lossy_of(stderr)
            },
        }),
{
    match state {
        RemoteBranchesState::CheckUrl => {
            match get_remote_url(outcome) {
                Err(e) => RemoteBranchesStep::Done(Err(e)),
                Ok(None) => RemoteBranchesStep::Done(
                    Err(arg("Remote origin is not configured for this repository")),
                ),
                Ok(Some(_)) => RemoteBranchesStep::Run(
                    fetch_cmd(repo_path),
                    RemoteBranchesState::Fetching,
                ),
            }
        },
        RemoteBranchesState::Fetching => RemoteBranchesStep::Run(
            for_each_ref_cmd(repo_path),
            RemoteBranchesState::Listing,
        ),
        RemoteBranchesState::Listing => match outcome {
            RunOutcome::NotFound { message } => RemoteBranchesStep::Done(
                Err(prefixed("Failed to list remote branches: ", message.as_str())),
            ),
            RunOutcome::Failed { message } => RemoteBranchesStep::Done(
                Err(prefixed("Failed to list remote branches: ", message.as_str())),
            ),
            RunOutcome::Exited { success, stdout, stderr, .. } => {
                if *success {
                    let lines = split_lines(stdout.as_slice());
                    let ghost linesv = lines.deep_view();
                    let mut branches: Vec<String> = Vec::new();
                    let mut k: usize = 0;
                    proof {
                        assert(branches.deep_view() =~~= Seq::<Seq<char>>::empty());
                    }
                    while k < lines.len()
                        invariant
                            k <= lines.len(),
                            linesv == lines.deep_view(),
                            linesv == spec_lines(stdout@),
                            strictly_sorted_strs(branches.deep_view()),
                            forall|y: Seq<char>|
                                #[trigger] branches.deep_view().contains(y) <==> exists|j: int|
                                    0 <= j < k && line_kept(#[trigger] linesv[j]) && lossy_of(
                                        name_of_line(linesv[j]),
                                    ) == y,
                        decreases lines.len() - k,
                    {
                        let ghost before = branches.deep_view();
                        proof {
                            assert(linesv[k as int] =~= lines@[k as int]@);
                        }
                        let t = trim_ascii(lines[k].as_slice());
                        let head = eq_bytes(t.as_slice(), "origin/HEAD".as_bytes());
                        if t.len() > 0 && !head {
                            let pre = "origin/".as_bytes();
                            let name: Vec<u8> = if starts_with(t.as_slice(), pre) {
                                let mut n: Vec<u8> = Vec::new();
                                let mut q: usize = pre.len();
                                while q < t.len()
                                    invariant
                                        pre@.len() <= q <= t@.len(),
                                        n@ == t@.subrange(pre@.len() as int, q as int),
                                    decreases t.len() - q,
                                {
                                    n.push(t[q]);
                                    assert(n@ =~= t@.subrange(pre@.len() as int, q + 1));
                                    q += 1;
                                }
                                proof {
                                    assert(n@ =~= t@.skip(pre@.len() as int));
                                }
                                n
                            } else {
                                let mut n: Vec<u8> = Vec::new();
                                let mut q: usize = 0;
                                while q < t.len()
                                    invariant
                                        q <= t@.len(),
                                        n@ == t@.subrange(0, q as int),
                                    decreases t.len() - q,
                                {
                                    n.push(t[q]);
                                    assert(n@ =~= t@.subrange(0, q + 1));
                                    q += 1;
                                }
                                proof {
                                    assert(n@ =~= t@);
                                }
                                n
                            };
                            proof {
                                assert(line_kept(linesv[k as int]));
                                assert(name@ == name_of_line(linesv[k as int]));
                            }
                            let rendered = lossy_string(name.as_slice());
                            sorted_insert_str(&mut branches, rendered);
                            proof {
                                assert(forall|y: Seq<char>|
                                    #[trigger] branches.deep_view().contains(y) <==> exists|j: int|
                                        0 <= j < k + 1 && line_kept(#[trigger] linesv[j])
                                            && lossy_of(name_of_line(linesv[j])) == y) by {
                                    assert forall|y: Seq<char>|
                                        #[trigger] branches.deep_view().contains(y)
                                            implies exists|j: int|
                                        0 <= j < k + 1 && line_kept(#[trigger] linesv[j])
                                            && lossy_of(name_of_line(linesv[j])) == y by {
                                        if before.contains(y) {
                                        } else {
                                            assert(line_kept(linesv[k as int]) && lossy_of(
                                                name_of_line(linesv[k as int]),
                                            ) == y);
                                        }
                                    }
                                }
                            }
                        } else {
                            proof {
                                assert(!line_kept(linesv[k as int])) by {
                                    if head {
                                        assert(t@ == "origin/HEAD".spec_bytes());
                                    }
                                }
                            }
                        }
                        k += 1;
                    }
                    RemoteBranchesStep::Done(Ok(branches))
                } else {
                    let tail = lossy_string(stderr.as_slice());
                    RemoteBranchesStep::Done(
                        Err(prefixed("Failed to list remote branches: ", tail.as_str())),
                    )
                }
            },
        },
    }
}

/// The merged-branch probe against one conventional base.
pub open spec fn branch_merged_model(repo: Seq<char>, base: Seq<char>) -> CmdModel {
    CmdModel {
        program: ProgramModel::Git,
        args: seq!["branch"@, "--merged"@, base],
        cwd: Some(repo),
    }
}

fn branch_merged_cmd(repo: &str, base: &str) -> (c: CmdSpec)
    ensures
        c@ =~~= branch_merged_model(repo@, base@),
{
    let mut args: Vec<String> = Vec::new();
    args.push(arg("branch"));
    args.push(arg("--merged"));
    args.push(arg(base));
    git_in(repo, args)
}

/// Which stage of the merged check is running.
pub enum MergedState {
    /// The best-effort fetch; its outcome is discarded.
    MergedFetch,
    /// Probing the conventional main branch.
    MergedIntoMain,
    /// Probing the conventional master branch.
    MergedIntoMaster,
}

/// What the merged check asks for next.
pub enum MergedStep {
    Run(CmdSpec, MergedState),
    Done(Result<bool, String>),
}

/// Starts the merged check: a best-effort fetch of the remote, then the
/// probe against the conventional main branch, then the conventional
/// master branch.
pub fn is_branch_merged(repo_path: &str) -> (r: (CmdSpec, MergedState))
    ensures
        r.0@ =~~= fetch_model(repo_path@),
        r.1 is MergedFetch,
{
    (fetch_cmd(repo_path), MergedState::MergedFetch)
}

/// Drives the merged check one transition: the fetch outcome is
/// discarded; a listing that names the branch answers yes; a failed or
/// silent probe falls through to the next base, and past the last one
/// the answer is no.
pub fn merged_step(repo_path: &str, branch: &str, state: MergedState, outcome: &RunOutcome) -> (r:
    MergedStep)
    ensures
        state is MergedFetch ==> (r matches MergedStep::Run(c, s) && c@ =~~= branch_merged_model(
            repo_path@,
            "main"@,
        ) && s is MergedIntoMain),
        !(state is MergedFetch) ==> {
            &&& outcome@ matches OutcomeModel::NotFound { message } ==> (r
                matches MergedStep::Done(d) && d matches Err(e) && e@
                == "Failed to check merged branches: "@ + message)
            &&& outcome@ matches OutcomeModel::Failed { message } ==> (r
                matches MergedStep::Done(d) && d matches Err(e) && e@
                == "Failed to check merged branches: "@ + message)
            &&& (outcome@ matches OutcomeModel::Exited { success: true, stdout, .. }
                && spec_merged_lines_contain(stdout, branch.spec_bytes())) ==> (r
                matches MergedStep::Done(d) && d matches Ok(b) && b)
            &&& (outcome@ matches OutcomeModel::Exited { success, stdout, .. } && !(success
                && spec_merged_lines_contain(stdout, branch.spec_bytes()))) ==> (match state {
                MergedState::MergedFetch => true,
                MergedState::MergedIntoMain => (r matches MergedStep::Run(c, s) && c@
                    =~~= branch_merged_model(repo_path@, "master"@) && s is MergedIntoMaster),
                MergedState::MergedIntoMaster => (r matches MergedStep::Done(d) && d matches Ok(
                    b,
                ) && !b),
            })
        },
{
    match state {
        MergedState::MergedFetch => MergedStep::Run(
            branch_merged_cmd(repo_path, "main"),
            MergedState::MergedIntoMain,
        ),
        _ => match outcome {
            RunOutcome::NotFound { message } => MergedStep::Done(
                Err(prefixed("Failed to check merged branches: ", message.as_str())),
            ),
            RunOutcome::Failed { message } => MergedStep::Done(
                Err(prefixed("Failed to check merged branches: ", message.as_str())),
            ),
            RunOutcome::Exited { success, stdout, .. } => {
                if *success && merged_lines_contain(stdout.as_slice(), branch) {
                    MergedStep::Done(Ok(true))
                } else if matches!(state, MergedState::MergedIntoMaster) {
                    MergedStep::Done(Ok(false))
                } else {
                    MergedStep::Run(
                        branch_merged_cmd(repo_path, "master"),
                        MergedState::MergedIntoMaster,
                    )
                }
            },
        },
    }
}

} // verus!
