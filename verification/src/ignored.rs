//! The ignored-path carry-over filter.
//!
//! Ignored files (credentials, local configuration) are copied from the
//! source repository into a fresh workspace so it can run, unless the
//! caller opts a path out through the skip list. A skip entry with a path
//! separator matches a path exactly or as a directory prefix; a bare name
//! matches any single path component.

use vstd::prelude::*;
use vstd::string::StringSliceAdditionalSpecFns;
use crate::bytes::{
    spec_split, spec_trim, spec_starts_with, split_bytes, trim_ascii, starts_with, eq_bytes,
};
use crate::text::{lossy_of, lossy_string};
use crate::run::{CmdSpec, CmdModel, ProgramModel, RunOutcome, OutcomeModel, arg, prefixed, git_in};
use crate::status::drop_empty;

verus! {

/// Path normalization: backslashes become forward slashes.
pub open spec fn norm(b: Seq<u8>) -> Seq<u8> {
    b.map_values(
        |c: u8|
            if c == 0x5c {
                0x2f
            } else {
                c
            },
    )
}

fn normalize(b: &[u8]) -> (r: Vec<u8>)
    ensures
        r@ == norm(b@),
{
    let mut out: Vec<u8> = Vec::new();
    let mut i: usize = 0;
    while i < b.len()
        invariant
            i <= b.len(),
            out@ == norm(b@.subrange(0, i as int)),
        decreases b.len() - i,
    {
        let c = b[i];
        if c == 0x5c {
            out.push(0x2f);
        } else {
            out.push(c);
        }
        proof {
            assert(norm(b@.subrange(0, i + 1)) =~= norm(b@.subrange(0, i as int)).push(
                if b@[i as int] == 0x5c {
                    0x2f
                } else {
                    b@[i as int]
                },
            ));
        }
        i += 1;
    }
    proof {
        assert(b@.subrange(0, b@.len() as int) =~= b@);
    }
    out
}

/// Whether `b` holds the byte `c` anywhere.
pub open spec fn has_byte(b: Seq<u8>, c: u8) -> bool {
    exists|i: int| 0 <= i < b.len() && b[i] == c
}

fn find_byte(b: &[u8], c: u8) -> (r: bool)
    ensures
        r == has_byte(b@, c),
{
    let mut i: usize = 0;
    while i < b.len()
        invariant
            i <= b.len(),
            forall|j: int| 0 <= j < i ==> b@[j] != c,
        decreases b.len() - i,
    {
        if b[i] == c {
            return true;
        }
        i += 1;
    }
    false
}

/// Whether one skip entry rules a path out. `path_n` is the normalized
/// path, `comps` its components.
pub open spec fn spec_entry_matches(path_n: Seq<u8>, entry: Seq<u8>) -> bool {
    let t = spec_trim(entry);
    if t.len() == 0 {
        false
    } else {
        let n = norm(t);
        if has_byte(n, 0x2f) {
            path_n == n || spec_starts_with(path_n, n.push(0x2f))
        } else {
            exists|k: int|
                0 <= k < spec_split(path_n, 0x2f).len() && spec_split(path_n, 0x2f)[k] == n
        }
    }
}

/// Whether any skip entry rules the path out.
pub open spec fn spec_should_skip(path: Seq<u8>, entries: Seq<Seq<u8>>) -> bool {
    exists|e: int| 0 <= e < entries.len() && spec_entry_matches(norm(path), entries[e])
}

/// The byte form of a list of entry strings.
pub open spec fn entries_bytes(entries: Seq<Seq<char>>) -> Seq<Seq<u8>> {
    entries.map_values(|e: Seq<char>| vstd::utf8::encode_utf8(e))
}

/// Decides whether an ignored path is excluded from the carry-over by the
/// skip list.
#[verifier::loop_isolation(false)]
pub fn should_skip_path(path: &str, skip_list: &Vec<String>) -> (r: bool)
    ensures
        r == spec_should_skip(path.spec_bytes(), entries_bytes(skip_list.deep_view())),
{
    let ghost entriesv = entries_bytes(skip_list.deep_view());
    let path_n = normalize(path.as_bytes());
    let comps = split_bytes(path_n.as_slice(), 0x2f);
    let mut e: usize = 0;
    while e < skip_list.len()
        invariant
            e <= skip_list.len(),
            entriesv == entries_bytes(skip_list.deep_view()),
            entriesv.len() == skip_list.len(),
            path_n@ == norm(path.spec_bytes()),
            comps.deep_view() == spec_split(path_n@, 0x2f),
            forall|j: int| 0 <= j < e ==> !spec_entry_matches(path_n@, #[trigger] entriesv[j]),
        decreases skip_list.len() - e,
    {
        proof {
            assert(entriesv[e as int] == vstd::utf8::encode_utf8(skip_list.deep_view()[e as int]));
            assert(skip_list.deep_view()[e as int] == skip_list@[e as int]@);
        }
        let entry = &skip_list[e];
        let t = trim_ascii(entry.as_str().as_bytes());
        if t.len() > 0 {
            let n = normalize(t.as_slice());
            if find_byte(n.as_slice(), 0x2f) {
                let mut nslash = n.clone();
                nslash.push(0x2f);
                proof {
                    assert(nslash@ =~= n@.push(0x2f));
                }
                if eq_bytes(path_n.as_slice(), n.as_slice()) || starts_with(
                    path_n.as_slice(),
                    nslash.as_slice(),
                ) {
                    proof {
                        assert(spec_entry_matches(path_n@, entriesv[e as int]));
                    }
                    return true;
                }
            } else {
                let mut k: usize = 0;
                let ghost compsv = comps.deep_view();
                while k < comps.len()
                    invariant
                        k <= comps.len(),
                        compsv == comps.deep_view(),
                        n@ == norm(spec_trim(entriesv[e as int])),
                        forall|j: int| 0 <= j < k ==> compsv[j] != n@,
                    decreases comps.len() - k,
                {
                    proof {
                        assert(compsv[k as int] =~= comps@[k as int]@);
                    }
                    if eq_bytes(comps[k].as_slice(), n.as_slice()) {
                        proof {
                            assert(compsv[k as int] == n@);
                            assert(spec_entry_matches(path_n@, entriesv[e as int]));
                        }
                        return true;
                    }
                    k += 1;
                }
                proof {
                    assert(!spec_entry_matches(path_n@, entriesv[e as int]));
                }
            }
        }
        e += 1;
    }
    false
}

/// The paths that survive the skip list, in their original order.
pub open spec fn spec_filter_paths(paths: Seq<Seq<char>>, entries: Seq<Seq<u8>>) -> Seq<Seq<char>>
    decreases paths.len(),
{
    if paths.len() == 0 {
        Seq::empty()
    } else if spec_should_skip(vstd::utf8::encode_utf8(paths[0]), entries) {
        spec_filter_paths(paths.skip(1), entries)
    } else {
        seq![paths[0]] + spec_filter_paths(paths.skip(1), entries)
    }
}

/// Applies the skip list to the ignored-path listing: exactly the paths
/// no entry rules out survive, in order.
pub fn filter_ignored_paths(paths: &Vec<String>, skip_list: &Vec<String>) -> (r: Vec<String>)
    ensures
        r.deep_view() == spec_filter_paths(
            paths.deep_view(),
            entries_bytes(skip_list.deep_view()),
        ),
{
    let ghost pathsv = paths.deep_view();
    let ghost entriesv = entries_bytes(skip_list.deep_view());
    let mut out: Vec<String> = Vec::new();
    let mut i: usize = 0;
    proof {
        assert(pathsv.skip(0) =~= pathsv);
        assert(out.deep_view() =~~= Seq::<Seq<char>>::empty());
    }
    while i < paths.len()
        invariant
            i <= paths.len(),
            pathsv == paths.deep_view(),
            entriesv == entries_bytes(skip_list.deep_view()),
            spec_filter_paths(pathsv, entriesv) =~~= out.deep_view() + spec_filter_paths(
                pathsv.skip(i as int),
                entriesv,
            ),
        decreases paths.len() - i,
    {
        proof {
            assert(pathsv.skip(i as int).skip(1) =~= pathsv.skip(i + 1));
            assert(pathsv.skip(i as int)[0] == pathsv[i as int]);
            assert(pathsv[i as int] == paths@[i as int]@);
        }
        let p = &paths[i];
        if !should_skip_path(p.as_str(), skip_list) {
            let ghost out0 = out.deep_view();
            out.push(p.clone());
            proof {
                assert(out.deep_view() =~~= out0.push(pathsv[i as int]));
            }
        }
        i += 1;
    }
    proof {
        assert(pathsv.skip(pathsv.len() as int) =~= Seq::<Seq<char>>::empty());
        assert(out.deep_view() =~~= spec_filter_paths(pathsv, entriesv));
    }
    out
}

/// A path survives the filter exactly when it was listed and no skip
/// entry rules it out: skipped paths are absent from the carry-over, all
/// others are present.
pub proof fn lemma_filter_exact(paths: Seq<Seq<char>>, entries: Seq<Seq<u8>>, x: Seq<char>)
    ensures
        spec_filter_paths(paths, entries).contains(x) <==> paths.contains(x) && !spec_should_skip(
            vstd::utf8::encode_utf8(x),
            entries,
        ),
    decreases paths.len(),
{
    if paths.len() > 0 {
        lemma_filter_exact(paths.skip(1), entries, x);
        assert(paths.contains(x) <==> paths[0] == x || paths.skip(1).contains(x)) by {
            if paths.contains(x) {
                let w = choose|w: int| 0 <= w < paths.len() && paths[w] == x;
                if w > 0 {
                    assert(paths.skip(1)[w - 1] == x);
                }
            }
            if paths.skip(1).contains(x) {
                let w = choose|w: int| 0 <= w < paths.skip(1).len() && paths.skip(1)[w] == x;
                assert(paths[w + 1] == x);
            }
        }
        if !spec_should_skip(vstd::utf8::encode_utf8(paths[0]), entries) {
            assert(spec_filter_paths(paths, entries).contains(x) <==> (paths[0] == x
                || spec_filter_paths(paths.skip(1), entries).contains(x))) by {
                let f = spec_filter_paths(paths, entries);
                let g = spec_filter_paths(paths.skip(1), entries);
                assert(f == seq![paths[0]] + g);
                if f.contains(x) {
                    let w = choose|w: int| 0 <= w < f.len() && f[w] == x;
                    if w > 0 {
                        assert(g[w - 1] == x);
                    }
                }
                if g.contains(x) {
                    let w = choose|w: int| 0 <= w < g.len() && g[w] == x;
                    assert(f[w + 1] == x);
                }
                if paths[0] == x {
                    assert(f[0] == x);
                }
            }
        }
    }
}

/// The listing of the source repository's ignored paths.
pub fn list_ignored_cmd(repo_path: &str) -> (c: CmdSpec)
    ensures
        c@.program == ProgramModel::Git,
        c@.cwd == Some(repo_path@),
        c@.args =~~= seq!["ls-files"@, "--others"@, "-i"@, "--exclude-standard"@, "-z"@],
{
    let mut args: Vec<String> = Vec::new();
    args.push(arg("ls-files"));
    args.push(arg("--others"));
    args.push(arg("-i"));
    args.push(arg("--exclude-standard"));
    args.push(arg("-z"));
    git_in(repo_path, args)
}

/// What the ignored-path listing yields for each outcome.
pub open spec fn spec_list_ignored(o: OutcomeModel) -> Result<Seq<Seq<char>>, Seq<char>> {
    match o {
        OutcomeModel::NotFound { message } => Err("Failed to list ignored files: "@ + message),
        OutcomeModel::Failed { message } => Err("Failed to list ignored files: "@ + message),
        OutcomeModel::Exited { success, stdout, stderr, .. } => if success {
            Ok(drop_empty(spec_split(stdout, 0)).map_values(|p: Seq<u8>| lossy_of(p)))
        } else {
            Err("Failed to list ignored files: "@ + lossy_of(stderr))
        },
    }
}

/// Interprets the outcome of the ignored-path listing.
pub fn list_ignored_output(outcome: &RunOutcome) -> (r: Result<Vec<String>, String>)
    ensures
        match r {
            Ok(paths) => spec_list_ignored(outcome@) == Ok::<Seq<Seq<char>>, Seq<char>>(
                paths.deep_view(),
            ),
            Err(e) => spec_list_ignored(outcome@) == Err::<Seq<Seq<char>>, Seq<char>>(e@),
        },
{
    match outcome {
        RunOutcome::NotFound { message } => Err(
            prefixed("Failed to list ignored files: ", message.as_str()),
        ),
        RunOutcome::Failed { message } => Err(
            prefixed("Failed to list ignored files: ", message.as_str()),
        ),
        RunOutcome::Exited { success, stdout, stderr, .. } => {
            if *success {
                let pieces = split_bytes(stdout.as_slice(), 0);
                let ghost piecesv = pieces.deep_view();
                let mut out: Vec<String> = Vec::new();
                let mut i: usize = 0;
                proof {
                    assert(piecesv.skip(0) =~= piecesv);
                    assert(out.deep_view() =~~= Seq::<Seq<char>>::empty());
                }
                while i < pieces.len()
                    invariant
                        i <= pieces.len(),
                        piecesv == pieces.deep_view(),
                        drop_empty(piecesv).map_values(|p: Seq<u8>| lossy_of(p)) =~~= out.deep_view()
                            + drop_empty(piecesv.skip(i as int)).map_values(
                            |p: Seq<u8>| lossy_of(p),
                        ),
                    decreases pieces.len() - i,
                {
                    proof {
                        assert(piecesv.skip(i as int).skip(1) =~= piecesv.skip(i + 1));
                        assert(piecesv.skip(i as int)[0] == piecesv[i as int]);
                        assert(piecesv[i as int] =~= pieces@[i as int]@);
                    }
                    if pieces[i].len() > 0 {
                        let ghost out0 = out.deep_view();
                        let s = lossy_string(pieces[i].as_slice());
                        out.push(s);
                        proof {
                            assert(out.deep_view() =~~= out0.push(lossy_of(piecesv[i as int])));
                            assert(drop_empty(piecesv.skip(i as int)).map_values(
                                |p: Seq<u8>| lossy_of(p),
                            ) =~= seq![lossy_of(piecesv[i as int])] + drop_empty(
                                piecesv.skip(i + 1),
                            ).map_values(|p: Seq<u8>| lossy_of(p)));
                        }
                    }
                    i += 1;
                }
                proof {
                    assert(piecesv.skip(piecesv.len() as int) =~= Seq::<Seq<u8>>::empty());
                    assert(out.deep_view() =~~= drop_empty(piecesv).map_values(
                        |p: Seq<u8>| lossy_of(p),
                    ));
                }
                Ok(out)
            } else {
                let tail = lossy_string(stderr.as_slice());
                Err(prefixed("Failed to list ignored files: ", tail.as_str()))
            }
        },
    }
}

} // verus!
