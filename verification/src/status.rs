//! Parser for the VCS tool's machine-readable status stream.
//!
//! The stream is a sequence of null-delimited records. A record's first byte
//! tells its kind: `1` an ordinary change, `2` a rename or copy (the original
//! path follows as its own record), `u` an unmerged conflict, `?` an
//! untracked path, `!` an ignored path (dropped). Records with too few
//! fields are skipped rather than failing the whole parse.

use vstd::prelude::*;
use crate::bytes::{spec_split, spec_splitn, split_bytes, splitn_bytes};
use crate::text::{lossy_of, lossy_string};
use crate::run::{RunOutcome, OutcomeModel, prefixed};

verus! {

/// The closed set of change kinds, derived from the tool's raw status
/// letters at the parsing boundary so nothing downstream matches on
/// characters.
#[derive(Clone, Copy, Debug, PartialEq, Eq, Structural)]
pub enum ChangeStatus {
    Added,
    Modified,
    Deleted,
    Renamed,
    Copied,
    Unmerged,
    Untracked,
    Unknown,
    Ignored,
}

impl ChangeStatus {
    /// The status letter the VCS tool uses for this kind; untracked and
    /// unknown entries both show the tool's `?` placeholder.
    pub fn letter(&self) -> (r: &'static str)
        ensures
            r@ == spec_status_letter(*self),
    {
        match self {
            ChangeStatus::Added => "A",
            ChangeStatus::Modified => "M",
            ChangeStatus::Deleted => "D",
            ChangeStatus::Renamed => "R",
            ChangeStatus::Copied => "C",
            ChangeStatus::Unmerged => "U",
            ChangeStatus::Untracked => "?",
            ChangeStatus::Unknown => "?",
            ChangeStatus::Ignored => "!",
        }
    }
}

pub open spec fn spec_status_letter(s: ChangeStatus) -> Seq<char> {
    match s {
        ChangeStatus::Added => "A"@,
        ChangeStatus::Modified => "M"@,
        ChangeStatus::Deleted => "D"@,
        ChangeStatus::Renamed => "R"@,
        ChangeStatus::Copied => "C"@,
        ChangeStatus::Unmerged => "U"@,
        ChangeStatus::Untracked => "?"@,
        ChangeStatus::Unknown => "?"@,
        ChangeStatus::Ignored => "!"@,
    }
}

/// The change kind a raw status byte denotes.
pub open spec fn spec_status_of(b: u8) -> ChangeStatus {
    if b == 0x41 {
        ChangeStatus::Added
    } else if b == 0x4d {
        ChangeStatus::Modified
    } else if b == 0x44 {
        ChangeStatus::Deleted
    } else if b == 0x52 {
        ChangeStatus::Renamed
    } else if b == 0x43 {
        ChangeStatus::Copied
    } else if b == 0x55 {
        ChangeStatus::Unmerged
    } else {
        ChangeStatus::Unknown
    }
}

fn status_of(b: u8) -> (r: ChangeStatus)
    ensures
        r == spec_status_of(b),
{
    if b == 0x41 {
        ChangeStatus::Added
    } else if b == 0x4d {
        ChangeStatus::Modified
    } else if b == 0x44 {
        ChangeStatus::Deleted
    } else if b == 0x52 {
        ChangeStatus::Renamed
    } else if b == 0x43 {
        ChangeStatus::Copied
    } else if b == 0x55 {
        ChangeStatus::Unmerged
    } else {
        ChangeStatus::Unknown
    }
}

/// One entry of the status list.
#[derive(Clone, Debug)]
pub struct GitChange {
    pub path: String,
    pub old_path: Option<String>,
    pub status: ChangeStatus,
    pub staged: bool,
    pub unstaged: bool,
    pub untracked: bool,
}

/// Spec-level image of a [`GitChange`].
pub struct ChangeModel {
    pub path: Seq<char>,
    pub old_path: Option<Seq<char>>,
    pub status: ChangeStatus,
    pub staged: bool,
    pub unstaged: bool,
    pub untracked: bool,
}

impl View for GitChange {
    type V = ChangeModel;

    open spec fn view(&self) -> ChangeModel {
        ChangeModel {
            path: self.path@,
            old_path: match self.old_path {
                Some(ref p) => Some(p@),
                None => None,
            },
            status: self.status,
            staged: self.staged,
            unstaged: self.unstaged,
            untracked: self.untracked,
        }
    }
}

impl DeepView for GitChange {
    type V = ChangeModel;

    open spec fn deep_view(&self) -> ChangeModel {
        self.view()
    }
}

/// The placeholder byte `.` marking "no change on this side".
pub open spec fn unchanged(b: u8) -> bool {
    b == 0x2e
}

/// The record an ordinary or rename entry yields: the index-side letter
/// wins, then the worktree-side letter, then the unknown sentinel; a side
/// is involved exactly when its letter is not the placeholder.
pub open spec fn spec_change_from_xy(
    path: Seq<char>,
    old_path: Option<Seq<char>>,
    xy: Seq<u8>,
) -> ChangeModel {
    let sb: u8 = if xy.len() >= 1 {
        xy[0]
    } else {
        0x2e
    };
    let ub: u8 = if xy.len() >= 2 {
        xy[1]
    } else {
        0x2e
    };
    ChangeModel {
        path: path,
        old_path: old_path,
        status: if !unchanged(sb) {
            spec_status_of(sb)
        } else if !unchanged(ub) {
            spec_status_of(ub)
        } else {
            ChangeStatus::Unknown
        },
        staged: !unchanged(sb),
        unstaged: !unchanged(ub),
        untracked: false,
    }
}

/// Builds the record for an ordinary or rename entry from its two-letter
/// status field.
pub fn change_from_xy(path: String, old_path: Option<String>, xy: &[u8]) -> (c: GitChange)
    ensures
        c@ == spec_change_from_xy(
            path@,
            match old_path {
                Some(p) => Some(p@),
                None => None,
            },
            xy@,
        ),
{
    let sb: u8 = if xy.len() >= 1 {
        xy[0]
    } else {
        0x2e
    };
    let ub: u8 = if xy.len() >= 2 {
        xy[1]
    } else {
        0x2e
    };
    let status = if sb != 0x2e {
        status_of(sb)
    } else if ub != 0x2e {
        status_of(ub)
    } else {
        ChangeStatus::Unknown
    };
    GitChange { path, old_path, status, staged: sb != 0x2e, unstaged: ub != 0x2e, untracked: false }
}

/// The record for an unmerged (conflict) entry.
pub open spec fn spec_unmerged(path: Seq<char>) -> ChangeModel {
    ChangeModel {
        path: path,
        old_path: None,
        status: ChangeStatus::Unmerged,
        staged: true,
        unstaged: true,
        untracked: false,
    }
}

/// The record for an untracked entry.
pub open spec fn spec_untracked(path: Seq<char>) -> ChangeModel {
    ChangeModel {
        path: path,
        old_path: None,
        status: ChangeStatus::Untracked,
        staged: false,
        unstaged: false,
        untracked: true,
    }
}

/// The non-empty records of the null-delimited stream.
pub open spec fn drop_empty(parts: Seq<Seq<u8>>) -> Seq<Seq<u8>>
    decreases parts.len(),
{
    if parts.len() == 0 {
        Seq::empty()
    } else if parts[0].len() == 0 {
        drop_empty(parts.skip(1))
    } else {
        seq![parts[0]] + drop_empty(parts.skip(1))
    }
}

/// The change list a record sequence denotes; `2` records consume the
/// following record as the rename source.
pub open spec fn spec_parse_parts(parts: Seq<Seq<u8>>) -> Seq<ChangeModel>
    decreases parts.len(),
{
    if parts.len() == 0 {
        Seq::empty()
    } else {
        let p = parts[0];
        if p.len() == 0 {
            spec_parse_parts(parts.skip(1))
        } else if p[0] == 0x31 {
            let fields = spec_splitn(p, 0x20, 9);
            if fields.len() == 9 {
                seq![spec_change_from_xy(lossy_of(fields[8]), None, fields[1])]
                    + spec_parse_parts(parts.skip(1))
            } else {
                spec_parse_parts(parts.skip(1))
            }
        } else if p[0] == 0x32 {
            let fields = spec_splitn(p, 0x20, 10);
            if fields.len() == 10 {
                if parts.len() >= 2 {
                    seq![spec_change_from_xy(lossy_of(fields[9]), Some(lossy_of(parts[1])), fields[1])]
                        + spec_parse_parts(parts.skip(2))
                } else {
                    seq![spec_change_from_xy(lossy_of(fields[9]), None, fields[1])]
                }
            } else {
                spec_parse_parts(parts.skip(1))
            }
        } else if p[0] == 0x75 {
            let fields = spec_splitn(p, 0x20, 11);
            seq![spec_unmerged(lossy_of(fields.last()))] + spec_parse_parts(parts.skip(1))
        } else if p[0] == 0x3f {
            let path = if p.len() >= 2 && p[1] == 0x20 {
                lossy_of(p.skip(2))
            } else {
                Seq::<char>::empty()
            };
            seq![spec_untracked(path)] + spec_parse_parts(parts.skip(1))
        } else {
            spec_parse_parts(parts.skip(1))
        }
    }
}

/// The change list carried by a raw status stream.
pub open spec fn spec_parse_status(stdout: Seq<u8>) -> Seq<ChangeModel> {
    spec_parse_parts(drop_empty(spec_split(stdout, 0)))
}

/// Splits the stream into its non-empty records.
fn nonempty_records(stdout: &[u8]) -> (r: Vec<Vec<u8>>)
    ensures
        r.deep_view() == drop_empty(spec_split(stdout@, 0)),
{
    let parts = split_bytes(stdout, 0);
    let ghost partsv = parts.deep_view();
    let mut out: Vec<Vec<u8>> = Vec::new();
    let mut i: usize = 0;
    proof {
        assert(partsv.skip(0) =~= partsv);
        assert(out.deep_view() =~~= Seq::<Seq<u8>>::empty());
    }
    while i < parts.len()
        invariant
            i <= parts.len(),
            partsv == parts.deep_view(),
            drop_empty(partsv) =~~= out.deep_view() + drop_empty(partsv.skip(i as int)),
        decreases parts.len() - i,
    {
        proof {
            assert(partsv.skip(i as int).skip(1) =~= partsv.skip(i + 1));
            assert(partsv.skip(i as int)[0] == partsv[i as int]);
        }
        if parts[i].len() > 0 {
            let ghost out0 = out.deep_view();
            let piece = parts[i].clone();
            assert(piece@ == partsv[i as int]);
            out.push(piece);
            proof {
                assert(out.deep_view() =~~= out0.push(partsv[i as int]));
            }
        }
        i += 1;
    }
    proof {
        assert(partsv.skip(partsv.len() as int) =~= Seq::<Seq<u8>>::empty());
        assert(out.deep_view() =~~= drop_empty(partsv));
    }
    out
}

/// Parses the raw status stream into change records.
#[verifier::rlimit(50)]
pub fn parse_status(stdout: &[u8]) -> (r: Vec<GitChange>)
    ensures
        r.deep_view() == spec_parse_status(stdout@),
{
    let parts = nonempty_records(stdout);
    let ghost partsv = parts.deep_view();
    let mut out: Vec<GitChange> = Vec::new();
    let mut i: usize = 0;
    proof {
        assert(partsv.skip(0) =~= partsv);
        assert(out.deep_view() =~~= Seq::<ChangeModel>::empty());
    }
    while i < parts.len()
        invariant
            i <= parts.len(),
            partsv == parts.deep_view(),
            spec_parse_parts(partsv) =~~= out.deep_view() + spec_parse_parts(
                partsv.skip(i as int),
            ),
        decreases parts.len() - i,
    {
        proof {
            assert(partsv.skip(i as int).skip(1) =~= partsv.skip(i + 1));
            assert(partsv.skip(i as int)[0] == partsv[i as int]);
        }
        let ghost out0 = out.deep_view();
        let p = &parts[i];
        let ghost pv = partsv[i as int];
        assert(p@ == pv);
        if p.len() == 0 {
            i += 1;
            continue;
        }
        let tag = p[0];
        if tag == 0x31 {
            let fields = splitn_bytes(p.as_slice(), 0x20, 9);
            if fields.len() == 9 {
                let path = lossy_string(fields[8].as_slice());
                let rec = change_from_xy(path, None, fields[1].as_slice());
                out.push(rec);
                proof {
                    assert(fields.deep_view()[8] =~= fields@[8]@);
                    assert(fields.deep_view()[1] =~= fields@[1]@);
                    assert(out.deep_view() =~~= out0.push(
                        spec_change_from_xy(
                            lossy_of(spec_splitn(pv, 0x20, 9)[8]),
                            None,
                            spec_splitn(pv, 0x20, 9)[1],
                        ),
                    ));
                }
            }
            i += 1;
        } else if tag == 0x32 {
            let fields = splitn_bytes(p.as_slice(), 0x20, 10);
            if fields.len() == 10 {
                let path = lossy_string(fields[9].as_slice());
                if i + 1 < parts.len() {
                    let old = lossy_string(parts[i + 1].as_slice());
                    let rec = change_from_xy(path, Some(old), fields[1].as_slice());
                    out.push(rec);
                    proof {
                        assert(fields.deep_view()[9] =~= fields@[9]@);
                        assert(fields.deep_view()[1] =~= fields@[1]@);
                        assert(partsv.skip(i as int)[1] == partsv[i + 1]);
                        assert(partsv[i + 1] =~= parts@[i + 1]@);
                        assert(partsv.skip(i as int).skip(2) =~= partsv.skip(i + 2));
                        assert(out.deep_view() =~~= out0.push(
                            spec_change_from_xy(
                                lossy_of(spec_splitn(pv, 0x20, 10)[9]),
                                Some(lossy_of(partsv[i + 1])),
                                spec_splitn(pv, 0x20, 10)[1],
                            ),
                        ));
                    }
                    i += 2;
                } else {
                    let rec = change_from_xy(path, None, fields[1].as_slice());
                    out.push(rec);
                    proof {
                        assert(fields.deep_view()[9] =~= fields@[9]@);
                        assert(fields.deep_view()[1] =~= fields@[1]@);
                        assert(partsv.skip(i as int).len() == 1);
                        assert(out.deep_view() =~~= out0.push(
                            spec_change_from_xy(
                                lossy_of(spec_splitn(pv, 0x20, 10)[9]),
                                None,
                                spec_splitn(pv, 0x20, 10)[1],
                            ),
                        ));
                        assert(partsv.skip(partsv.len() as int) =~= Seq::<Seq<u8>>::empty());
                    }
                    i += 1;
                }
            } else {
                i += 1;
            }
        } else if tag == 0x75 {
            let fields = splitn_bytes(p.as_slice(), 0x20, 11);
            let path = lossy_string(fields[fields.len() - 1].as_slice());
            let rec = GitChange {
                path,
                old_path: None,
                status: ChangeStatus::Unmerged,
                staged: true,
                unstaged: true,
                untracked: false,
            };
            out.push(rec);
            proof {
                assert(fields.deep_view().last() =~= fields@[fields@.len() - 1]@);
                assert(out.deep_view() =~~= out0.push(
                    spec_unmerged(lossy_of(spec_splitn(pv, 0x20, 11).last())),
                ));
            }
            i += 1;
        } else if tag == 0x3f {
            let path = if p.len() >= 2 && p[1] == 0x20 {
                lossy_string(&p.as_slice()[2..p.len()])
            } else {
                String::new()
            };
            proof {
                if pv.len() >= 2 && pv[1] == 0x20 {
                    assert(pv.subrange(2, pv.len() as int) =~= pv.skip(2));
                }
            }
            let rec = GitChange {
                path,
                old_path: None,
                status: ChangeStatus::Untracked,
                staged: false,
                unstaged: false,
                untracked: true,
            };
            out.push(rec);
            proof {
                let specpath = if pv.len() >= 2 && pv[1] == 0x20 {
                    lossy_of(pv.skip(2))
                } else {
                    Seq::<char>::empty()
                };
                assert(out.deep_view() =~~= out0.push(spec_untracked(specpath)));
            }
            i += 1;
        } else {
            i += 1;
        }
    }
    proof {
        assert(partsv.skip(partsv.len() as int) =~= Seq::<Seq<u8>>::empty());
        assert(out.deep_view() =~~= spec_parse_parts(partsv));
    }
    out
}

/// What `list_changes` yields for each possible outcome of the status
/// invocation.
pub open spec fn spec_list_changes(o: OutcomeModel) -> Result<Seq<ChangeModel>, Seq<char>> {
    match o {
        OutcomeModel::NotFound { message } => Err("Failed to list git changes: "@ + message),
        OutcomeModel::Failed { message } => Err("Failed to list git changes: "@ + message),
        OutcomeModel::Exited { success, stdout, stderr, .. } => if success {
            Ok(spec_parse_status(stdout))
        } else {
            Err("Failed to list git changes: "@ + lossy_of(stderr))
        },
    }
}

/// The invocation whose outcome `list_changes` interprets: the structured,
/// null-delimited status listing, run in the workspace.
pub fn list_changes_cmd(repo_path: &str) -> (c: crate::run::CmdSpec)
    ensures
        c@.program == crate::run::ProgramModel::Git,
        c@.cwd == Some(repo_path@),
        c@.args =~~= seq!["status"@, "--porcelain=v2"@, "-z"@],
{
    let mut args: Vec<String> = Vec::new();
    args.push(crate::run::arg("status"));
    args.push(crate::run::arg("--porcelain=v2"));
    args.push(crate::run::arg("-z"));
    crate::run::git_in(repo_path, args)
}

/// Interprets the outcome of the status invocation: the parsed change list
/// on success, a descriptive error otherwise.
pub fn list_changes(outcome: &RunOutcome) -> (r: Result<Vec<GitChange>, String>)
    ensures
        match r {
            Ok(changes) => spec_list_changes(outcome@) == Ok::<Seq<ChangeModel>, Seq<char>>(
                changes.deep_view(),
            ),
            Err(e) => spec_list_changes(outcome@) == Err::<Seq<ChangeModel>, Seq<char>>(e@),
        },
{
    match outcome {
        RunOutcome::NotFound { message } => Err(
            prefixed("Failed to list git changes: ", message.as_str()),
        ),
        RunOutcome::Failed { message } => Err(
            prefixed("Failed to list git changes: ", message.as_str()),
        ),
        RunOutcome::Exited { success, stdout, stderr, .. } => {
            if *success {
                Ok(parse_status(stdout.as_slice()))
            } else {
                let tail = lossy_string(stderr.as_slice());
                Err(prefixed("Failed to list git changes: ", tail.as_str()))
            }
        },
    }
}

/// An untracked record never claims staged or unstaged work; its kind is
/// always the untracked sentinel.
pub proof fn lemma_untracked_never_staged(parts: Seq<Seq<u8>>)
    ensures
        forall|k: int|
            0 <= k < spec_parse_parts(parts).len() ==> (#[trigger] spec_parse_parts(
                parts,
            )[k].untracked ==> !spec_parse_parts(parts)[k].staged && !spec_parse_parts(
                parts,
            )[k].unstaged && spec_parse_parts(parts)[k].status == ChangeStatus::Untracked),
    decreases parts.len(),
{
    if parts.len() > 0 {
        lemma_untracked_never_staged(parts.skip(1));
        if parts.len() >= 2 {
            lemma_untracked_never_staged(parts.skip(2));
        }
    }
}

/// A well-formed stream: ordinary and rename records never carry the
/// conflict letter in their two-letter status field (the tool reports
/// conflicts as records of their own kind).
pub open spec fn no_conflict_letters(parts: Seq<Seq<u8>>) -> bool {
    forall|k: int|
        0 <= k < parts.len() ==> {
            let p = #[trigger] parts[k];
            (p.len() > 0 && (p[0] == 0x31 || p[0] == 0x32)) ==> {
                let fields = spec_splitn(p, 0x20, if p[0] == 0x31 { 9int } else { 10int });
                let xy = fields[1];
                (xy.len() >= 1 ==> xy[0] != 0x55) && (xy.len() >= 2 ==> xy[1] != 0x55)
            }
        }
}

/// On a well-formed stream, an unmerged record always claims both staged
/// and unstaged work.
pub proof fn lemma_unmerged_both_sides(parts: Seq<Seq<u8>>)
    requires
        no_conflict_letters(parts),
    ensures
        forall|k: int|
            0 <= k < spec_parse_parts(parts).len() ==> (#[trigger] spec_parse_parts(
                parts,
            )[k].status == ChangeStatus::Unmerged ==> spec_parse_parts(parts)[k].staged
                && spec_parse_parts(parts)[k].unstaged),
    decreases parts.len(),
{
    if parts.len() > 0 {
        assert(forall|k: int| 0 <= k < parts.skip(1).len() ==> parts.skip(1)[k] == parts[k + 1]);
        lemma_unmerged_both_sides(parts.skip(1));
        if parts.len() >= 2 {
            assert(forall|k: int|
                0 <= k < parts.skip(2).len() ==> parts.skip(2)[k] == parts[k + 2]);
            lemma_unmerged_both_sides(parts.skip(2));
        }
    }
}

/// Parsing is a pure function of the tool's output: two status queries
/// whose invocations came back identically yield identical change lists,
/// so consecutive calls on an unchanged repository agree.
pub proof fn lemma_status_parse_deterministic(o1: OutcomeModel, o2: OutcomeModel)
    requires
        o1 == o2,
    ensures
        spec_list_changes(o1) == spec_list_changes(o2),
{
}

} // verus!
