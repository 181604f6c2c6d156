//! Environment resolution for the session multiplexer.
//!
//! The hosting process may start with a minimal `PATH` (common for
//! GUI-launched programs), so the multiplexer executable is found by
//! probing, in order: an explicit override, the login shell's `PATH`, the
//! inherited `PATH`, and a fixed list of conventional locations. The caller
//! runs the filesystem checks and caches the two results once per process;
//! the candidate order and every acceptance decision live here.

use vstd::prelude::*;
use vstd::string::StringSliceAdditionalSpecFns;
use crate::bytes::{spec_split, spec_trim, split_bytes, trim_ascii};
use crate::text::{lossy_of, lossy_string};
use crate::run::{CmdSpec, Program, ProgramModel, RunOutcome, OutcomeModel, arg};

verus! {

/// The shells asked for a login `PATH`: the user's shell when known, then
/// the conventional two.
pub fn login_shell_candidates(shell_env: &Option<String>) -> (r: Vec<String>)
    ensures
        r.deep_view() =~~= (match shell_env {
            Some(s) => seq![s@],
            None => Seq::<Seq<char>>::empty(),
        }) + seq!["/bin/zsh"@, "/bin/bash"@],
{
    let mut out: Vec<String> = Vec::new();
    match shell_env {
        Some(s) => {
            out.push(s.clone());
        },
        None => {},
    }
    out.push(arg("/bin/zsh"));
    out.push(arg("/bin/bash"));
    out
}

/// The non-interactive login-shell invocation that echoes its `PATH`.
pub fn login_shell_cmd(shell: &str) -> (c: CmdSpec)
    ensures
        c@.program == ProgramModel::Path(shell@),
        c@.cwd is None,
        c@.args =~~= seq!["-l"@, "-c"@, "echo -n $PATH"@],
{
    let mut args: Vec<String> = Vec::new();
    args.push(arg("-l"));
    args.push(arg("-c"));
    args.push(arg("echo -n $PATH"));
    CmdSpec { program: Program::Path(shell.to_owned()), args, cwd: None }
}

/// What one login-shell probe yields: the trimmed `PATH` when the shell
/// ran and printed something, nothing otherwise.
pub open spec fn spec_login_shell_output(o: OutcomeModel) -> Option<Seq<char>> {
    match o {
        OutcomeModel::Exited { success: true, stdout, .. } => if spec_trim(stdout).len() > 0 {
            Some(lossy_of(spec_trim(stdout)))
        } else {
            None
        },
        _ => None,
    }
}

/// Accepts or rejects one login-shell probe.
pub fn login_shell_output(outcome: &RunOutcome) -> (r: Option<String>)
    ensures
        match r {
            Some(p) => spec_login_shell_output(outcome@) == Some(p@),
            None => spec_login_shell_output(outcome@) is None,
        },
{
    match outcome {
        RunOutcome::Exited { success, stdout, .. } => {
            if *success {
                let t = trim_ascii(stdout.as_slice());
                if t.len() > 0 {
                    Some(lossy_string(t.as_slice()))
                } else {
                    None
                }
            } else {
                None
            }
        },
        _ => None,
    }
}

/// Whether a file mode has any execute bit set, the test applied to each
/// probed path's metadata.
pub fn mode_is_executable(mode: u32) -> (r: bool)
    ensures
        r == (mode & 0o111 != 0),
{
    mode & 0o111 != 0
}

/// The executable candidate one `PATH` entry yields.
pub open spec fn spec_dir_candidate(dir: Seq<u8>) -> Seq<char> {
    if dir.len() == 0 {
        "tmux"@
    } else {
        lossy_of(dir) + "/tmux"@
    }
}

/// The candidates a colon-separated `PATH` value yields, in order.
pub open spec fn spec_path_candidates(path: Seq<u8>) -> Seq<Seq<char>> {
    spec_split(path, 0x3a).map_values(|d: Seq<u8>| spec_dir_candidate(d))
}

/// Appends the candidates of one `PATH` value.
fn push_path_candidates(out: &mut Vec<String>, path: &str)
    ensures
        final(out).deep_view() =~~= old(out).deep_view() + spec_path_candidates(
            path.spec_bytes(),
        ),
{
    let dirs = split_bytes(path.as_bytes(), 0x3a);
    let ghost dirsv = dirs.deep_view();
    let ghost base = out.deep_view();
    let mut i: usize = 0;
    while i < dirs.len()
        invariant
            i <= dirs.len(),
            dirsv == dirs.deep_view(),
            out.deep_view() =~~= base + dirsv.take(i as int).map_values(
                |d: Seq<u8>| spec_dir_candidate(d),
            ),
        decreases dirs.len() - i,
    {
        let ghost out0 = out.deep_view();
        proof {
            assert(dirsv[i as int] =~= dirs@[i as int]@);
        }
        if dirs[i].len() == 0 {
            out.push(arg("tmux"));
        } else {
            let d = lossy_string(dirs[i].as_slice());
            out.push(d.concat("/tmux"));
        }
        proof {
            assert(out.deep_view() =~~= out0.push(spec_dir_candidate(dirsv[i as int])));
            assert(dirsv.take(i + 1).map_values(|d: Seq<u8>| spec_dir_candidate(d)) =~= dirsv.take(
                i as int,
            ).map_values(|d: Seq<u8>| spec_dir_candidate(d)).push(
                spec_dir_candidate(dirsv[i as int]),
            ));
        }
        i += 1;
    }
    proof {
        assert(dirsv.take(dirsv.len() as int) =~= dirsv);
    }
}

/// The fixed fallback locations, probed last.
pub open spec fn spec_fixed_candidates() -> Seq<Seq<char>> {
    seq![
        "/opt/homebrew/bin/tmux"@,
        "/usr/local/bin/tmux"@,
        "/opt/local/bin/tmux"@,
        "/usr/bin/tmux"@,
        "/bin/tmux"@,
    ]
}

/// Every candidate path for the multiplexer executable, in probe order:
/// the explicit override, the login-shell `PATH`, the inherited `PATH`,
/// then the fixed locations. The caller takes the first that is an
/// executable file.
pub open spec fn spec_tmux_candidates(
    explicit: Option<Seq<char>>,
    login_path: Option<Seq<u8>>,
    env_path: Option<Seq<u8>>,
) -> Seq<Seq<char>> {
    (match explicit {
        Some(e) => seq![e],
        None => Seq::<Seq<char>>::empty(),
    }) + (match login_path {
        Some(p) => spec_path_candidates(p),
        None => Seq::<Seq<char>>::empty(),
    }) + (match env_path {
        Some(p) => spec_path_candidates(p),
        None => Seq::<Seq<char>>::empty(),
    }) + spec_fixed_candidates()
}

/// Builds the ordered candidate list for the multiplexer executable.
pub fn tmux_candidates(
    explicit: &Option<String>,
    login_path: &Option<String>,
    env_path: &Option<String>,
) -> (r: Vec<String>)
    ensures
        r.deep_view() =~~= spec_tmux_candidates(
            match explicit {
                Some(e) => Some(e@),
                None => None,
            },
            match login_path {
                Some(p) => Some(view_bytes_of(p@)),
                None => None,
            },
            match env_path {
                Some(p) => Some(view_bytes_of(p@)),
                None => None,
            },
        ),
{
    let ghost pe = match explicit {
        Some(e) => seq![e@],
        None => Seq::<Seq<char>>::empty(),
    };
    let ghost pl = match login_path {
        Some(p) => spec_path_candidates(view_bytes_of(p@)),
        None => Seq::<Seq<char>>::empty(),
    };
    let ghost pv = match env_path {
        Some(p) => spec_path_candidates(view_bytes_of(p@)),
        None => Seq::<Seq<char>>::empty(),
    };
    let mut out: Vec<String> = Vec::new();
    match explicit {
        Some(e) => {
            out.push(e.clone());
        },
        None => {},
    }
    proof {
        assert(out.deep_view() =~~= pe);
    }
    match login_path {
        Some(p) => {
            push_path_candidates(&mut out, p.as_str());
        },
        None => {},
    }
    proof {
        assert(out.deep_view() =~~= pe + pl);
    }
    match env_path {
        Some(p) => {
            push_path_candidates(&mut out, p.as_str());
        },
        None => {},
    }
    proof {
        assert(out.deep_view() =~~= pe + pl + pv);
    }
    let ghost g0 = out.deep_view();
    out.push(arg("/opt/homebrew/bin/tmux"));
    proof {
        assert(out.deep_view() =~~= g0.push("/opt/homebrew/bin/tmux"@));
    }
    let ghost g1 = out.deep_view();
    out.push(arg("/usr/local/bin/tmux"));
    proof {
        assert(out.deep_view() =~~= g1.push("/usr/local/bin/tmux"@));
    }
    let ghost g2 = out.deep_view();
    out.push(arg("/opt/local/bin/tmux"));
    proof {
        assert(out.deep_view() =~~= g2.push("/opt/local/bin/tmux"@));
    }
    let ghost g3 = out.deep_view();
    out.push(arg("/usr/bin/tmux"));
    proof {
        assert(out.deep_view() =~~= g3.push("/usr/bin/tmux"@));
    }
    let ghost g4 = out.deep_view();
    out.push(arg("/bin/tmux"));
    proof {
        assert(out.deep_view() =~~= g4.push("/bin/tmux"@));
        assert(out.deep_view() =~~= pe + pl + pv + spec_fixed_candidates());
    }
    out
}

/// The UTF-8 bytes of a string, the form `PATH` values are split in.
pub open spec fn view_bytes_of(s: Seq<char>) -> Seq<u8> {
    vstd::utf8::encode_utf8(s)
}

} // verus!
