use divergence::run::RunOutcome;
use divergence::sessions::{
    epoch_to_iso8601, kill_all_step, kill_all_tmux_sessions, kill_session_outcome,
    kill_tmux_session, list_tmux_sessions, parse_sessions, KillAllStep,
};
use divergence::status::{change_from_xy, list_changes, parse_status, ChangeStatus};

fn exited(success: bool, code: Option<i32>, stdout: &[u8], stderr: &[u8]) -> RunOutcome {
    RunOutcome::Exited { success, code, stdout: stdout.to_vec(), stderr: stderr.to_vec() }
}

#[test]
fn ordinary_entry_staged_side() {
    let out = parse_status(b"1 M. N... 100644 100644 100644 aaaa bbbb src/main.rs\0");
    assert_eq!(out.len(), 1);
    assert_eq!(out[0].path, "src/main.rs");
    assert_eq!(out[0].status, ChangeStatus::Modified);
    assert!(out[0].staged);
    assert!(!out[0].unstaged);
    assert!(!out[0].untracked);
    assert_eq!(out[0].old_path, None);
}

#[test]
fn ordinary_entry_worktree_side() {
    let out = parse_status(b"1 .D N... 100644 100644 100644 aaaa bbbb gone.txt\0");
    assert_eq!(out.len(), 1);
    assert_eq!(out[0].status, ChangeStatus::Deleted);
    assert!(!out[0].staged);
    assert!(out[0].unstaged);
}

#[test]
fn rename_entry_consumes_origin_record() {
    let out = parse_status(
        b"2 R. N... 100644 100644 100644 aaaa bbbb R100 new_name.rs\0old_name.rs\0",
    );
    assert_eq!(out.len(), 1);
    assert_eq!(out[0].path, "new_name.rs");
    assert_eq!(out[0].old_path.as_deref(), Some("old_name.rs"));
    assert_eq!(out[0].status, ChangeStatus::Renamed);
}

#[test]
fn unmerged_entry_has_both_sides() {
    let out = parse_status(
        b"u UU N... 100644 100644 100644 100644 aaaa bbbb cccc conflict.txt\0",
    );
    assert_eq!(out.len(), 1);
    assert_eq!(out[0].status, ChangeStatus::Unmerged);
    assert!(out[0].staged);
    assert!(out[0].unstaged);
    assert!(!out[0].untracked);
    assert_eq!(out[0].path, "conflict.txt");
}

#[test]
fn untracked_entry_never_staged() {
    let out = parse_status(b"? brand_new.txt\0");
    assert_eq!(out.len(), 1);
    assert_eq!(out[0].status, ChangeStatus::Untracked);
    assert!(!out[0].staged);
    assert!(!out[0].unstaged);
    assert!(out[0].untracked);
}

#[test]
fn ignored_and_malformed_records_are_dropped() {
    let out = parse_status(b"! junk.log\01 M.\0? kept.txt\0");
    assert_eq!(out.len(), 1);
    assert_eq!(out[0].path, "kept.txt");
}

#[test]
fn parsing_is_deterministic_across_calls() {
    let stream: &[u8] =
        b"1 MM N... 100644 100644 100644 aaaa bbbb both.rs\0? new.txt\0";
    let a = parse_status(stream);
    let b = parse_status(stream);
    assert_eq!(a.len(), b.len());
    for (x, y) in a.iter().zip(b.iter()) {
        assert_eq!(x.path, y.path);
        assert_eq!(x.old_path, y.old_path);
        assert_eq!(x.status, y.status);
        assert_eq!(x.staged, y.staged);
        assert_eq!(x.unstaged, y.unstaged);
        assert_eq!(x.untracked, y.untracked);
    }
}

#[test]
fn invalid_utf8_paths_are_repaired_not_echoed() {
    let mut stream: Vec<u8> = b"? bad".to_vec();
    stream.push(0xff);
    stream.push(b'x');
    stream.push(0);
    let out = parse_status(&stream);
    assert_eq!(out.len(), 1);
    assert_eq!(out[0].path, "bad\u{fffd}x");
}

#[test]
fn change_from_xy_resolution_order() {
    let c = change_from_xy("a".to_string(), None, b"MD");
    assert_eq!(c.status, ChangeStatus::Modified);
    assert!(c.staged && c.unstaged);
    let c = change_from_xy("a".to_string(), None, b"..");
    assert_eq!(c.status, ChangeStatus::Unknown);
    assert!(!c.staged && !c.unstaged);
    let c = change_from_xy("a".to_string(), None, b".A");
    assert_eq!(c.status, ChangeStatus::Added);
}

#[test]
fn list_changes_outcomes() {
    let ok = list_changes(&exited(true, Some(0), b"? f.txt\0", b"")).unwrap();
    assert_eq!(ok.len(), 1);
    let err = list_changes(&exited(false, Some(128), b"", b"fatal: not a repo")).unwrap_err();
    assert_eq!(err, "Failed to list git changes: fatal: not a repo");
    let err = list_changes(&RunOutcome::NotFound { message: "no git".to_string() }).unwrap_err();
    assert_eq!(err, "Failed to list git changes: no git");
}

#[test]
fn session_listing_keeps_only_namespace() {
    let stdout = b"divergence-work\t0\t1\t2\t0\nunrelated\t0\t0\t1\t0\n";
    let sessions = parse_sessions(stdout);
    assert_eq!(sessions.len(), 1);
    assert_eq!(sessions[0].name, "divergence-work");
    assert!(sessions[0].attached);
    assert_eq!(sessions[0].window_count, 2);
    assert_eq!(sessions[0].created, "1970-01-01T00:00:00+00:00");
    assert_eq!(sessions[0].activity, "1970-01-01T00:00:00+00:00");
    for s in &sessions {
        assert!(s.name.starts_with("divergence-"));
    }
}

#[test]
fn listing_format_separates_fields_with_real_tabs() {
    let cmd = divergence::sessions::list_sessions_cmd();
    assert_eq!(cmd.args[0], "list-sessions");
    assert_eq!(cmd.args[1], "-F");
    let format = &cmd.args[2];
    // the separator the parser splits on is the TAB byte, not a
    // backslash escape left for the tool to ignore
    assert_eq!(format.matches('\t').count(), 4);
    assert!(!format.contains('\\'));
    // a line shaped exactly like the format's output parses
    let line = format
        .replace("#{session_name}", "divergence-x")
        .replace("#{session_created}", "0")
        .replace("#{session_attached}", "1")
        .replace("#{session_windows}", "2")
        .replace("#{session_activity}", "0");
    let sessions = divergence::sessions::parse_sessions(line.as_bytes());
    assert_eq!(sessions.len(), 1);
    assert_eq!(sessions[0].name, "divergence-x");
}

#[test]
fn session_listing_short_lines_skipped() {
    let sessions = parse_sessions(b"divergence-a\t1\t0\n");
    assert_eq!(sessions.len(), 0);
}

#[test]
fn epoch_conversion() {
    assert_eq!(epoch_to_iso8601(b" 0 "), "1970-01-01T00:00:00+00:00");
    assert_eq!(epoch_to_iso8601(b"86400"), "1970-01-02T00:00:00+00:00");
    assert_eq!(epoch_to_iso8601(b"not-a-number"), "");
    assert_eq!(epoch_to_iso8601(b""), "");
}

#[test]
fn idle_host_is_empty_not_error() {
    let r = list_tmux_sessions(&exited(false, Some(1), b"", b"no server running on /tmp"));
    assert_eq!(r.unwrap().len(), 0);
    let r = list_tmux_sessions(&RunOutcome::NotFound { message: "missing".to_string() });
    assert_eq!(r.unwrap().len(), 0);
    let r = list_tmux_sessions(&exited(false, Some(1), b"", b"some other failure"));
    assert_eq!(r.unwrap_err(), "Failed to list tmux sessions: some other failure");
}

#[test]
fn kill_only_touches_namespace() {
    let cmd = kill_tmux_session("divergence-mine").expect("owned session gets a command");
    assert_eq!(cmd.args, vec!["kill-session", "-t", "divergence-mine"]);
    assert!(kill_tmux_session("production-db").is_none());
    assert!(kill_tmux_session("divergenc").is_none());
}

#[test]
fn kill_all_counts_and_stops_at_first_error() {
    let names = vec![
        "divergence-a".to_string(),
        "other".to_string(),
        "divergence-b".to_string(),
    ];
    // the first prefixed name gets an invocation
    let (cmd, st) = match kill_all_tmux_sessions(&names) {
        KillAllStep::Kill(c, s) => (c, s),
        KillAllStep::Done(_) => panic!("expected an invocation"),
    };
    assert_eq!(cmd.args, vec!["kill-session", "-t", "divergence-a"]);
    // a success counts it; the foreign name counts without an invocation
    let (cmd, st) = match kill_all_step(&names, st, &exited(true, Some(0), b"", b"")) {
        KillAllStep::Kill(c, s) => (c, s),
        KillAllStep::Done(_) => panic!("expected the second invocation"),
    };
    assert_eq!(cmd.args, vec!["kill-session", "-t", "divergence-b"]);
    match kill_all_step(&names, st, &exited(true, Some(0), b"", b"")) {
        KillAllStep::Done(Ok(n)) => assert_eq!(n, 3),
        _ => panic!("expected the count"),
    }
    // the first failure stops the batch with its error
    let (_, st) = match kill_all_tmux_sessions(&names) {
        KillAllStep::Kill(c, s) => (c, s),
        KillAllStep::Done(_) => panic!("expected an invocation"),
    };
    match kill_all_step(&names, st, &exited(false, Some(1), b"", b"permission denied")) {
        KillAllStep::Done(Err(e)) => {
            assert_eq!(e, "Failed to kill tmux session: permission denied")
        },
        _ => panic!("expected the error"),
    }
    // a batch of only foreign names finishes without any invocation
    let foreign = vec!["web".to_string(), "db".to_string()];
    match kill_all_tmux_sessions(&foreign) {
        KillAllStep::Done(Ok(n)) => assert_eq!(n, 2),
        _ => panic!("foreign names never get an invocation"),
    }
}

#[test]
fn kill_is_idempotent() {
    assert!(kill_session_outcome(&exited(true, Some(0), b"", b"")).is_ok());
    assert!(
        kill_session_outcome(&exited(false, Some(1), b"", b"can't find session: x")).is_ok()
    );
    assert!(kill_session_outcome(&exited(false, Some(1), b"", b"no server running")).is_ok());
    assert!(
        kill_session_outcome(&RunOutcome::NotFound { message: "gone".to_string() }).is_ok()
    );
    let err = kill_session_outcome(&exited(false, Some(1), b"", b"permission denied"));
    assert_eq!(err.unwrap_err(), "Failed to kill tmux session: permission denied");
}
