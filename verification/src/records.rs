//! Value objects handed back to the calling layer for display and
//! persistence, and the conversions into them.

use vstd::prelude::*;
use vstd::string::StringSliceAdditionalSpecFns;
use crate::bytes::eq_bytes;
use crate::status::{GitChange, spec_status_letter};
use crate::sessions::TmuxSessionInfo;
use crate::diff::GitDiff;

verus! {

/// Relies on chrono's `Utc::now` and `DateTime::to_rfc3339` for the
/// creation timestamp; the clock decides the value, so nothing is
/// promised of it. Aborts only on a system clock before the epoch, an
/// environmental fault no input avoids.
#[verifier::external_body]
fn now_rfc3339() -> (r: String) {
    chrono::Utc::now().to_rfc3339()
}

/// A registered project: a source repository with a display name. The
/// identifier is assigned by the caller's store, not here.
#[derive(Debug)]
pub struct Project {
    pub id: i64,
    pub name: String,
    pub path: String,
    pub created_at: String,
}

/// Builds the project record returned to the caller, stamped with the
/// current time.
pub fn new_project(name: String, path: String) -> (r: Project)
    ensures
        r.id == 0,
        r.name@ == name@,
        r.path@ == path@,
{
    Project { id: 0, name, path, created_at: now_rfc3339() }
}

/// A provisioned workspace, as reported to the caller for persistence.
#[derive(Debug)]
pub struct Divergence {
    pub id: i64,
    pub project_id: i64,
    pub name: String,
    pub branch: String,
    pub path: String,
    pub created_at: String,
    pub has_diverged: i32,
    pub mode: String,
}

/// Builds the workspace record returned to the caller: freshly created,
/// not yet diverged, stamped with the current time.
pub fn new_divergence(
    project_id: i64,
    name: String,
    branch: String,
    path: String,
    mode: String,
) -> (r: Divergence)
    ensures
        r.id == 0,
        r.project_id == project_id,
        r.name@ == name@,
        r.branch@ == branch@,
        r.path@ == path@,
        r.has_diverged == 0,
        r.mode@ == mode@,
{
    Divergence {
        id: 0,
        project_id,
        name,
        branch,
        path,
        created_at: now_rfc3339(),
        has_diverged: 0,
        mode,
    }
}

/// One change record in the form the calling layer displays: the status
/// as its letter.
#[derive(Debug)]
pub struct GitChangeEntry {
    pub path: String,
    pub old_path: Option<String>,
    pub status: String,
    pub staged: bool,
    pub unstaged: bool,
    pub untracked: bool,
}

/// Converts parsed change records into display entries, letter for
/// letter and flag for flag.
pub fn entries_from_changes(changes: Vec<GitChange>) -> (r: Vec<GitChangeEntry>)
    ensures
        r.len() == changes.len(),
        forall|k: int|
            0 <= k < r.len() ==> {
                &&& (#[trigger] r@[k]).path@ == changes@[k]@.path
                &&& (match r@[k].old_path {
                    Some(p) => changes@[k]@.old_path == Some(p@),
                    None => changes@[k]@.old_path is None,
                })
                &&& r@[k].status@ == spec_status_letter(changes@[k]@.status)
                &&& r@[k].staged == changes@[k]@.staged
                &&& r@[k].unstaged == changes@[k]@.unstaged
                &&& r@[k].untracked == changes@[k]@.untracked
            },
{
    let mut out: Vec<GitChangeEntry> = Vec::new();
    let mut i: usize = 0;
    while i < changes.len()
        invariant
            i <= changes.len(),
            out.len() == i,
            forall|k: int|
                0 <= k < i ==> {
                    &&& (#[trigger] out@[k]).path@ == changes@[k]@.path
                    &&& (match out@[k].old_path {
                        Some(p) => changes@[k]@.old_path == Some(p@),
                        None => changes@[k]@.old_path is None,
                    })
                    &&& out@[k].status@ == spec_status_letter(changes@[k]@.status)
                    &&& out@[k].staged == changes@[k]@.staged
                    &&& out@[k].unstaged == changes@[k]@.unstaged
                    &&& out@[k].untracked == changes@[k]@.untracked
                },
        decreases changes.len() - i,
    {
        let c = &changes[i];
        let entry = GitChangeEntry {
            path: c.path.clone(),
            old_path: match &c.old_path {
                Some(p) => Some(p.clone()),
                None => None,
            },
            status: c.status.letter().to_owned(),
            staged: c.staged,
            unstaged: c.unstaged,
            untracked: c.untracked,
        };
        out.push(entry);
        i += 1;
    }
    out
}

/// A diff in the form the calling layer displays.
#[derive(Debug)]
pub struct GitDiffResponse {
    pub diff: String,
    pub is_binary: bool,
}

/// Converts a retrieved diff into its display form.
pub fn diff_response(d: GitDiff) -> (r: GitDiffResponse)
    ensures
        r.diff@ == d@.diff,
        r.is_binary == d@.is_binary,
{
    GitDiffResponse { diff: d.diff, is_binary: d.is_binary }
}

/// A branch-scoped change listing with the base it was computed against.
#[derive(Debug)]
pub struct BranchChangesResponse {
    pub base_ref: Option<String>,
    pub changes: Vec<GitChangeEntry>,
}

/// One session in the form the calling layer displays.
#[derive(Debug)]
pub struct TmuxSessionEntry {
    pub name: String,
    pub created: String,
    pub attached: bool,
    pub window_count: u32,
    pub activity: String,
}

/// Converts session records into display entries, field for field.
pub fn session_entries(sessions: Vec<TmuxSessionInfo>) -> (r: Vec<TmuxSessionEntry>)
    ensures
        r.len() == sessions.len(),
        forall|k: int|
            0 <= k < r.len() ==> {
                &&& (#[trigger] r@[k]).name@ == sessions@[k]@.name
                &&& r@[k].created@ == sessions@[k]@.created
                &&& r@[k].attached == sessions@[k]@.attached
                &&& r@[k].window_count == sessions@[k]@.window_count
                &&& r@[k].activity@ == sessions@[k]@.activity
            },
{
    let mut out: Vec<TmuxSessionEntry> = Vec::new();
    let mut i: usize = 0;
    while i < sessions.len()
        invariant
            i <= sessions.len(),
            out.len() == i,
            forall|k: int|
                0 <= k < i ==> {
                    &&& (#[trigger] out@[k]).name@ == sessions@[k]@.name
                    &&& out@[k].created@ == sessions@[k]@.created
                    &&& out@[k].attached == sessions@[k]@.attached
                    &&& out@[k].window_count == sessions@[k]@.window_count
                    &&& out@[k].activity@ == sessions@[k]@.activity
                },
        decreases sessions.len() - i,
    {
        let s = &sessions[i];
        let entry = TmuxSessionEntry {
            name: s.name.clone(),
            created: s.created.clone(),
            attached: s.attached,
            window_count: s.window_count,
            activity: s.activity.clone(),
        };
        out.push(entry);
        i += 1;
    }
    out
}

/// A file-tree listing, possibly cut off at the cap.
#[derive(Debug)]
pub struct FileListResult {
    pub files: Vec<String>,
    pub truncated: bool,
}

/// Whether a directory name is left out of the file-tree listing: the
/// fixed set of build and cache directories the walk never descends
/// into.
pub fn is_ignored_dir_name(name: &str) -> (r: bool)
    ensures
        r == {
            ||| name@ == "node_modules"@
            ||| name@ == ".git"@
            ||| name@ == "target"@
            ||| name@ == "dist"@
            ||| name@ == "build"@
            ||| name@ == ".next"@
            ||| name@ == "__pycache__"@
            ||| name@ == ".DS_Store"@
            ||| name@ == ".cache"@
            ||| name@ == ".turbo"@
            ||| name@ == ".vercel"@
            ||| name@ == ".output"@
            ||| name@ == "coverage"@
            ||| name@ == ".nyc_output"@
            ||| name@ == ".parcel-cache"@
            ||| name@ == ".svelte-kit"@
            ||| name@ == ".nuxt"@
            ||| name@ == ".expo"@
            ||| name@ == "vendor"@
        },
{
    let r = eq_str(name, "node_modules") || eq_str(name, ".git") || eq_str(name, "target")
        || eq_str(name, "dist") || eq_str(name, "build") || eq_str(name, ".next") || eq_str(
        name,
        "__pycache__",
    ) || eq_str(name, ".DS_Store") || eq_str(name, ".cache") || eq_str(name, ".turbo") || eq_str(
        name,
        ".vercel",
    ) || eq_str(name, ".output") || eq_str(name, "coverage") || eq_str(name, ".nyc_output")
        || eq_str(name, ".parcel-cache") || eq_str(name, ".svelte-kit") || eq_str(name, ".nuxt")
        || eq_str(name, ".expo") || eq_str(name, "vendor");
    r
}

/// String equality through the byte encoding, which determines the
/// characters.
pub fn eq_str(a: &str, b: &str) -> (r: bool)
    ensures
        r == (a@ == b@),
{
    let r = eq_bytes(a.as_bytes(), b.as_bytes());
    proof {
        if a.spec_bytes() == b.spec_bytes() {
            vstd::utf8::encode_utf8_decode_utf8(a@);
            vstd::utf8::encode_utf8_decode_utf8(b@);
        }
    }
    r
}

} // verus!
