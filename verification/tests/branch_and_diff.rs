use divergence::branch::{branch_status_step, get_branch_status, StatusState, StatusStep};
use divergence::diff::{diff_mode_of, diff_step, get_diff, rel_path, DiffMode, DiffState, DiffStep};
use divergence::run::{Program, RunOutcome};

fn exited(success: bool, code: Option<i32>, stdout: &[u8], stderr: &[u8]) -> RunOutcome {
    RunOutcome::Exited { success, code, stdout: stdout.to_vec(), stderr: stderr.to_vec() }
}

fn run_of(step: StatusStep) -> (divergence::run::CmdSpec, StatusState) {
    match step {
        StatusStep::Run(c, s) => (c, s),
        StatusStep::Done(_) => panic!("expected another invocation"),
    }
}

#[test]
fn in_sync_branch_is_merged_not_diverged() {
    let (fetch, st) = get_branch_status("/ws", "feature");
    assert_eq!(fetch.args, vec!["fetch", "origin"]);
    assert_eq!(fetch.cwd.as_deref(), Some("/ws"));
    // fetch outcome is discarded, best effort
    let (symref, st) = run_of(branch_status_step("/ws", "feature", st, &exited(false, Some(1), b"", b"offline")));
    assert_eq!(symref.args, vec!["symbolic-ref", "--quiet", "--short", "refs/remotes/origin/HEAD"]);
    let (revlist, st) = run_of(branch_status_step("/ws", "feature", st, &exited(true, Some(0), b"origin/main\n", b"")));
    assert_eq!(revlist.args, vec!["rev-list", "--count", "origin/main..feature"]);
    let (mergebase, st) = run_of(branch_status_step("/ws", "feature", st, &exited(true, Some(0), b"0\n", b"")));
    assert_eq!(mergebase.args, vec!["merge-base", "--is-ancestor", "feature", "origin/main"]);
    match branch_status_step("/ws", "feature", st, &exited(true, Some(0), b"", b"")) {
        StatusStep::Done(Ok(bs)) => {
            assert!(bs.merged);
            assert!(!bs.diverged);
        },
        _ => panic!("expected a final answer"),
    }
}

#[test]
fn ahead_branch_is_diverged() {
    let (_, st) = get_branch_status("/ws", "feature");
    let (_, st) = run_of(branch_status_step("/ws", "feature", st, &exited(true, Some(0), b"", b"")));
    let (_, st) = run_of(branch_status_step("/ws", "feature", st, &exited(true, Some(0), b"origin/main\n", b"")));
    let (_, st) = run_of(branch_status_step("/ws", "feature", st, &exited(true, Some(0), b"3\n", b"")));
    match branch_status_step("/ws", "feature", st, &exited(false, Some(1), b"", b"")) {
        StatusStep::Done(Ok(bs)) => {
            assert!(!bs.merged);
            assert!(bs.diverged);
        },
        _ => panic!("expected a final answer"),
    }
}

#[test]
fn no_base_ref_answers_cleanly() {
    let (_, st) = get_branch_status("/ws", "feature");
    let (_, mut st) = run_of(branch_status_step("/ws", "feature", st, &exited(true, Some(0), b"", b"")));
    // the default-branch read comes back empty: fall through all six candidates
    let mut step = branch_status_step("/ws", "feature", st, &exited(true, Some(0), b"\n", b""));
    let mut probes = 0;
    loop {
        match step {
            StatusStep::Run(c, s) => {
                assert_eq!(c.args[0], "show-ref");
                probes += 1;
                st = s;
                step = branch_status_step("/ws", "feature", st, &exited(false, Some(1), b"", b""));
            },
            StatusStep::Done(r) => {
                let bs = r.expect("no base reference is not an error");
                assert!(!bs.merged);
                assert!(!bs.diverged);
                break;
            },
        }
    }
    assert_eq!(probes, 6);
}

#[test]
fn ahead_count_failure_is_reported() {
    let (_, st) = get_branch_status("/ws", "b");
    let (_, st) = run_of(branch_status_step("/ws", "b", st, &exited(true, Some(0), b"", b"")));
    let (_, st) = run_of(branch_status_step("/ws", "b", st, &exited(true, Some(0), b"main\n", b"")));
    match branch_status_step("/ws", "b", st, &exited(false, Some(128), b"", b"bad revision")) {
        StatusStep::Done(Err(e)) => {
            assert_eq!(e, "Failed to compute branch ahead count: bad revision")
        },
        _ => panic!("expected an error"),
    }
}

#[test]
fn rel_path_forms() {
    assert_eq!(rel_path("/repo", "/repo/src/a.rs"), "src/a.rs");
    assert_eq!(rel_path("/repo", "/repo"), "");
    assert_eq!(rel_path("/repo", "other/b.rs"), "other/b.rs");
    assert_eq!(rel_path("/repo", "/repository/b.rs"), "/repository/b.rs");
}

#[test]
fn diff_modes() {
    assert_eq!(diff_mode_of("staged"), DiffMode::Staged);
    assert_eq!(diff_mode_of("working"), DiffMode::Working);
    assert_eq!(diff_mode_of("anything"), DiffMode::Working);
}

#[test]
fn staged_diff_uses_cached_flag() {
    let (cmd, _) = get_diff("/repo", "/repo/f.txt", DiffMode::Staged);
    assert_eq!(cmd.args, vec!["diff", "--no-color", "--patch", "--cached", "--", "f.txt"]);
}

#[test]
fn untracked_file_diff_is_two_sided_and_nonempty() {
    let (cmd, st) = get_diff("/repo", "/repo/new.txt", DiffMode::Working);
    assert_eq!(cmd.args, vec!["diff", "--no-color", "--patch", "--", "new.txt"]);
    // first diff comes back empty
    let step = diff_step("/repo", DiffMode::Working, st, &exited(true, Some(0), b"", b""));
    let st = match step {
        DiffStep::Run(c, s) => {
            assert_eq!(c.args, vec!["ls-files", "--error-unmatch", "--", "new.txt"]);
            s
        },
        DiffStep::Done(_) => panic!("expected the index probe"),
    };
    // the probe fails: the file is untracked
    let step = diff_step("/repo", DiffMode::Working, st, &exited(false, Some(1), b"", b""));
    let st = match step {
        DiffStep::Run(c, s) => {
            assert_eq!(
                c.args,
                vec!["diff", "--no-color", "--patch", "--no-index", "--", "/dev/null", "new.txt"],
            );
            s
        },
        DiffStep::Done(_) => panic!("expected the two-sided comparison"),
    };
    let whole_file_added = b"--- /dev/null\n+++ b/new.txt\n@@ -0,0 +1 @@\n+hello\n";
    match diff_step("/repo", DiffMode::Working, st, &exited(false, Some(1), whole_file_added, b"")) {
        DiffStep::Done(Ok(d)) => {
            assert!(!d.diff.is_empty());
            assert!(d.diff.contains("+hello"));
            assert!(!d.is_binary);
        },
        _ => panic!("expected the diff text"),
    }
}

#[test]
fn tracked_empty_diff_stays_empty() {
    let (_, st) = get_diff("/repo", "tracked.txt", DiffMode::Working);
    let step = diff_step("/repo", DiffMode::Working, st, &exited(true, Some(0), b"", b""));
    let st = match step {
        DiffStep::Run(_, s) => s,
        DiffStep::Done(_) => panic!("expected the index probe"),
    };
    match diff_step("/repo", DiffMode::Working, st, &exited(true, Some(0), b"tracked.txt\n", b"")) {
        DiffStep::Done(Ok(d)) => {
            assert_eq!(d.diff, "");
            assert!(!d.is_binary);
        },
        _ => panic!("expected an empty diff"),
    }
}

#[test]
fn binary_markers_are_detected() {
    let (_, st) = get_diff("/repo", "img.png", DiffMode::Working);
    let step = diff_step(
        "/repo",
        DiffMode::Working,
        st,
        &exited(true, Some(1), b"Binary files a/img.png and b/img.png differ\n", b""),
    );
    match step {
        DiffStep::Done(Ok(d)) => assert!(d.is_binary),
        _ => panic!("expected a binary diff"),
    }
}

#[test]
fn diff_exit_codes_above_one_fail() {
    let (_, st) = get_diff("/repo", "f", DiffMode::Working);
    match diff_step("/repo", DiffMode::Working, st, &exited(false, Some(2), b"", b"fatal: bad")) {
        DiffStep::Done(Err(e)) => assert_eq!(e, "Git diff failed: fatal: bad"),
        _ => panic!("expected an error"),
    }
    let (_, st) = get_diff("/repo", "f", DiffMode::Working);
    match diff_step("/repo", DiffMode::Working, st, &exited(false, Some(1), b"x\n", b"")) {
        DiffStep::Done(Ok(d)) => assert_eq!(d.diff, "x\n"),
        _ => panic!("code one is differences found, not failure"),
    }
}

#[test]
fn programs_are_distinguished() {
    let (cmd, _) = get_branch_status("/ws", "b");
    assert!(matches!(cmd.program, Program::Git));
    let listing = divergence::sessions::list_sessions_cmd();
    assert!(matches!(listing.program, Program::Tmux));
}
