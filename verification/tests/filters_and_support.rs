use divergence::bytes::{contains_bytes, parse_i64, parse_u32, split_bytes, starts_with, trim_ascii};
use divergence::config::{
    build_claude_summary, build_integrations_summary, build_labels_summary, config_layout,
    ConfigLayout,
};
use divergence::envpath::{
    login_shell_candidates, login_shell_cmd, login_shell_output, mode_is_executable,
    tmux_candidates,
};
use divergence::ignored::{filter_ignored_paths, list_ignored_output, should_skip_path};
use divergence::paths::{get_database_path, get_divergence_dir, get_repos_dir};
use divergence::records::{
    entries_from_changes, is_ignored_dir_name, new_divergence, new_project, session_entries,
};
use divergence::remote::{
    get_remote_url, is_branch_merged, list_remote_branches, merged_step, remote_branches_step,
    MergedState, MergedStep, RemoteBranchesState, RemoteBranchesStep,
};
use divergence::run::RunOutcome;
use divergence::status::parse_status;

fn exited(success: bool, code: Option<i32>, stdout: &[u8], stderr: &[u8]) -> RunOutcome {
    RunOutcome::Exited { success, code, stdout: stdout.to_vec(), stderr: stderr.to_vec() }
}

fn skips(entries: &[&str]) -> Vec<String> {
    entries.iter().map(|e| e.to_string()).collect()
}

#[test]
fn bare_name_entries_match_components() {
    let skip = skips(&["secrets"]);
    assert!(should_skip_path("secrets", &skip));
    assert!(should_skip_path("secrets/key.pem", &skip));
    assert!(should_skip_path("deep/secrets/key.pem", &skip));
    assert!(!should_skip_path("secrets.txt", &skip));
    assert!(!should_skip_path(".env", &skip));
}

#[test]
fn path_entries_match_exactly_or_as_prefix() {
    let skip = skips(&["config/local"]);
    assert!(should_skip_path("config/local", &skip));
    assert!(should_skip_path("config/local/a.toml", &skip));
    assert!(!should_skip_path("config/localx", &skip));
    assert!(!should_skip_path("local", &skip));
}

#[test]
fn entries_are_trimmed_and_empty_ones_ignored() {
    assert!(should_skip_path("secrets/x", &skips(&[" secrets "])));
    assert!(!should_skip_path("anything", &skips(&["", "   "])));
    assert!(!should_skip_path("anything", &skips(&[])));
}

#[test]
fn backslashes_normalize_to_slashes() {
    assert!(should_skip_path("a\\b\\c", &skips(&["a/b"])));
    assert!(should_skip_path("a/b/c", &skips(&["a\\b"])));
}

#[test]
fn carry_over_keeps_env_but_not_secrets() {
    let listed = vec![
        ".env".to_string(),
        "secrets/token".to_string(),
        "secrets/deep/key".to_string(),
        "cache/tmp".to_string(),
    ];
    let kept = filter_ignored_paths(&listed, &skips(&["secrets"]));
    assert_eq!(kept, vec![".env".to_string(), "cache/tmp".to_string()]);
}

#[test]
fn ignored_listing_parses_nul_stream() {
    let r = list_ignored_output(&exited(true, Some(0), b".env\0node_modules/a\0\0", b""));
    assert_eq!(r.unwrap(), vec![".env".to_string(), "node_modules/a".to_string()]);
    let r = list_ignored_output(&exited(false, Some(128), b"", b"not a repo"));
    assert_eq!(r.unwrap_err(), "Failed to list ignored files: not a repo");
}

#[test]
fn byte_utilities() {
    assert_eq!(parse_i64(b"42"), Some(42));
    assert_eq!(parse_i64(b"-7"), Some(-7));
    assert_eq!(parse_i64(b"+7"), Some(7));
    assert_eq!(parse_i64(b"9223372036854775807"), Some(i64::MAX));
    assert_eq!(parse_i64(b"-9223372036854775808"), Some(i64::MIN));
    assert_eq!(parse_i64(b"9223372036854775808"), None);
    assert_eq!(parse_i64(b""), None);
    assert_eq!(parse_i64(b"1a"), None);
    assert_eq!(parse_i64(b" 1"), None);
    assert_eq!(parse_u32(b"4294967295"), Some(u32::MAX));
    assert_eq!(parse_u32(b"4294967296"), None);
    assert_eq!(parse_u32(b"-1"), None);
    assert_eq!(trim_ascii(b"  x\t\r\n"), b"x".to_vec());
    assert_eq!(trim_ascii(b"   "), Vec::<u8>::new());
    assert!(starts_with(b"origin/main", b"origin/"));
    assert!(!starts_with(b"orig", b"origin/"));
    assert!(contains_bytes(b"lead Binary files differ", b"Binary files"));
    assert!(!contains_bytes(b"text", b"Binary files"));
    assert_eq!(split_bytes(b"a:b::c", 0x3a).len(), 4);
}

#[test]
fn layout_paths() {
    assert_eq!(get_divergence_dir("/home/u"), "/home/u/.divergence");
    assert_eq!(get_repos_dir("/home/u"), "/home/u/.divergence/repos");
    assert_eq!(get_database_path("/home/u"), "/home/u/.divergence/divergence.db");
    if let Some(root) = divergence::paths::resolve_repos_dir() {
        assert!(root.ends_with("/.divergence/repos"));
    }
}

#[test]
fn status_letters() {
    let copied = parse_status(b"1 C. N... 100644 100644 100644 aaaa bbbb copy.rs\0");
    assert_eq!(entries_from_changes(copied)[0].status, "C");
    let unknown = parse_status(b"1 Z. N... 100644 100644 100644 aaaa bbbb odd.rs\0");
    assert_eq!(entries_from_changes(unknown)[0].status, "?");
}

#[test]
fn login_shell_probing() {
    let shells = login_shell_candidates(&Some("/bin/fish".to_string()));
    assert_eq!(shells, vec!["/bin/fish", "/bin/zsh", "/bin/bash"]);
    let shells = login_shell_candidates(&None);
    assert_eq!(shells, vec!["/bin/zsh", "/bin/bash"]);
    let cmd = login_shell_cmd("/bin/zsh");
    assert_eq!(cmd.args, vec!["-l", "-c", "echo -n $PATH"]);
    let got = login_shell_output(&exited(true, Some(0), b" /usr/bin:/bin \n", b""));
    assert_eq!(got.as_deref(), Some("/usr/bin:/bin"));
    assert_eq!(login_shell_output(&exited(true, Some(0), b"  ", b"")), None);
    assert_eq!(login_shell_output(&exited(false, Some(1), b"/usr/bin", b"")), None);
}

#[test]
fn multiplexer_candidates_in_probe_order() {
    let cands = tmux_candidates(
        &Some("/custom/tmux".to_string()),
        &Some("/lg".to_string()),
        &Some("/a:/b:".to_string()),
    );
    let expect: Vec<String> = vec![
        "/custom/tmux",
        "/lg/tmux",
        "/a/tmux",
        "/b/tmux",
        "tmux",
        "/opt/homebrew/bin/tmux",
        "/usr/local/bin/tmux",
        "/opt/local/bin/tmux",
        "/usr/bin/tmux",
        "/bin/tmux",
    ].into_iter().map(|s| s.to_string()).collect();
    assert_eq!(cands, expect);
    assert!(mode_is_executable(0o755));
    assert!(mode_is_executable(0o100));
    assert!(!mode_is_executable(0o644));
}

#[test]
fn remote_url_reading() {
    let r = get_remote_url(&exited(true, Some(0), b"git@host:a/b.git\n", b""));
    assert_eq!(r.unwrap().as_deref(), Some("git@host:a/b.git"));
    let r = get_remote_url(&exited(false, Some(2), b"", b"no such remote"));
    assert_eq!(r.unwrap(), None);
    let r = get_remote_url(&RunOutcome::Failed { message: "io".to_string() });
    assert_eq!(r.unwrap_err(), "Failed to get remote URL: io");
}

#[test]
fn remote_branches_sorted_and_deduplicated() {
    let (cmd, st) = list_remote_branches("/repo");
    assert_eq!(cmd.args, vec!["remote", "get-url", "origin"]);
    let step = remote_branches_step("/repo", st, &exited(true, Some(0), b"url\n", b""));
    let st = match step {
        RemoteBranchesStep::Run(c, s) => {
            assert_eq!(c.args, vec!["fetch", "origin"]);
            s
        },
        _ => panic!("expected the fetch"),
    };
    let step = remote_branches_step("/repo", st, &exited(false, Some(1), b"", b"offline"));
    let st = match step {
        RemoteBranchesStep::Run(c, s) => {
            assert_eq!(c.args[0], "for-each-ref");
            s
        },
        _ => panic!("expected the listing"),
    };
    let listing = b"origin/beta\norigin/alpha\norigin/HEAD\norigin/alpha\nstray\n\n";
    match remote_branches_step("/repo", st, &exited(true, Some(0), listing, b"")) {
        RemoteBranchesStep::Done(Ok(branches)) => {
            assert_eq!(branches, vec!["alpha".to_string(), "beta".to_string(), "stray".to_string()]);
        },
        _ => panic!("expected the branch names"),
    }
}

#[test]
fn rendered_duplicates_collapse() {
    // two raw names differing only in invalid bytes render alike and
    // appear once, deduplicated on the rendered form
    let (_, st) = list_remote_branches("/repo");
    let st = match remote_branches_step("/repo", st, &exited(true, Some(0), b"url\n", b"")) {
        RemoteBranchesStep::Run(_, s) => s,
        _ => panic!("expected the fetch"),
    };
    let st = match remote_branches_step("/repo", st, &exited(true, Some(0), b"", b"")) {
        RemoteBranchesStep::Run(_, s) => s,
        _ => panic!("expected the listing"),
    };
    let mut listing: Vec<u8> = b"origin/a".to_vec();
    listing.push(0xff);
    listing.push(b'\n');
    listing.extend_from_slice(b"origin/a");
    listing.push(0xfe);
    listing.push(b'\n');
    match remote_branches_step("/repo", st, &exited(true, Some(0), &listing, b"")) {
        RemoteBranchesStep::Done(Ok(branches)) => {
            assert_eq!(branches, vec!["a\u{fffd}".to_string()]);
        },
        _ => panic!("expected the branch names"),
    }
}

#[test]
fn missing_origin_refuses_listing() {
    let (_, st) = list_remote_branches("/repo");
    match remote_branches_step("/repo", st, &exited(false, Some(2), b"", b"")) {
        RemoteBranchesStep::Done(Err(e)) => {
            assert_eq!(e, "Remote origin is not configured for this repository")
        },
        _ => panic!("expected a refusal"),
    }
}

#[test]
fn merged_check_walks_both_bases() {
    let (cmd, st) = is_branch_merged("/repo");
    // the fetch comes first and its outcome is discarded
    assert_eq!(cmd.args, vec!["fetch", "origin"]);
    let st = match merged_step("/repo", "feature", st, &exited(false, Some(1), b"", b"offline")) {
        MergedStep::Run(c, s) => {
            assert_eq!(c.args, vec!["branch", "--merged", "main"]);
            s
        },
        _ => panic!("expected the first probe"),
    };
    // the current-branch marker is stripped before comparing
    match merged_step("/repo", "feature", st, &exited(true, Some(0), b"* feature\n  main\n", b"")) {
        MergedStep::Done(Ok(m)) => assert!(m),
        _ => panic!("expected an answer"),
    }
    let step = merged_step("/repo", "ghost", MergedState::MergedIntoMain, &exited(true, Some(0), b"  main\n", b""));
    let st = match step {
        MergedStep::Run(c, s) => {
            assert_eq!(c.args, vec!["branch", "--merged", "master"]);
            s
        },
        _ => panic!("expected the second probe"),
    };
    match merged_step("/repo", "ghost", st, &exited(true, Some(0), b"  master\n", b"")) {
        MergedStep::Done(Ok(m)) => assert!(!m),
        _ => panic!("expected an answer"),
    }
}

#[test]
fn config_sections_only_when_populated() {
    assert_eq!(config_layout(Some(2), false, false), ConfigLayout::Provider);
    assert_eq!(config_layout(None, true, true), ConfigLayout::Provider);
    assert_eq!(config_layout(Some(1), false, false), ConfigLayout::Legacy);
    assert_eq!(config_layout(None, false, true), ConfigLayout::Legacy);
    assert_eq!(config_layout(None, false, false), ConfigLayout::Neither);

    assert!(build_labels_summary(None, None, None, None).is_none());
    let labels = build_labels_summary(Some("cand".to_string()), None, None, None).unwrap();
    assert_eq!(labels.candidate.as_deref(), Some("cand"));
    assert!(labels.ready.is_none());

    assert!(build_claude_summary(None, None, None).is_none());
    let claude = build_claude_summary(Some(5), None, Some("model-x".to_string())).unwrap();
    assert_eq!(claude.max_iterations, Some(5));
    assert_eq!(claude.model.as_deref(), Some("model-x"));

    assert!(build_integrations_summary(false, Some("o".to_string()), None).is_none());
    assert!(build_integrations_summary(true, None, None).is_none());
    let ints = build_integrations_summary(true, Some("o".to_string()), Some("r".to_string()));
    let github = ints.unwrap().github.unwrap();
    assert_eq!(github.owner.as_deref(), Some("o"));
    assert_eq!(github.repo.as_deref(), Some("r"));
}

#[test]
fn display_records_mirror_their_sources() {
    let changes = parse_status(b"1 A. N... 100644 100644 100644 aaaa bbbb added.rs\0? new.txt\0");
    let entries = entries_from_changes(changes);
    assert_eq!(entries.len(), 2);
    assert_eq!(entries[0].status, "A");
    assert!(entries[0].staged);
    assert_eq!(entries[1].status, "?");
    assert!(entries[1].untracked);

    let sessions = divergence::sessions::parse_sessions(b"divergence-a\t0\t0\t3\t0\n");
    let rows = session_entries(sessions);
    assert_eq!(rows.len(), 1);
    assert_eq!(rows[0].name, "divergence-a");
    assert!(!rows[0].attached);
    assert_eq!(rows[0].window_count, 3);

    let p = new_project("app".to_string(), "/code/app".to_string());
    assert_eq!(p.id, 0);
    assert_eq!(p.name, "app");
    assert_eq!(p.path, "/code/app");

    let d = new_divergence(7, "app-b-12ab34cd".to_string(), "b".to_string(), "/ws".to_string(), "clone".to_string());
    assert_eq!(d.project_id, 7);
    assert_eq!(d.has_diverged, 0);
    assert_eq!(d.mode, "clone");

    assert!(is_ignored_dir_name("node_modules"));
    assert!(is_ignored_dir_name(".git"));
    assert!(!is_ignored_dir_name("src"));
}
