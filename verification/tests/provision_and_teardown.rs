use divergence::provision::{
    create_divergence, divergence_dir_name, mode_name, mode_of, provision_step, DivergenceMode,
    ProvisionState, ProvisionStep,
};
use divergence::run::{CmdSpec, RunOutcome};
use divergence::teardown::{is_inside_root, teardown_plan, worktree_gitdir_target, TeardownPlan};

fn exited(success: bool, code: Option<i32>, stdout: &[u8], stderr: &[u8]) -> RunOutcome {
    RunOutcome::Exited { success, code, stdout: stdout.to_vec(), stderr: stderr.to_vec() }
}

fn run_of(step: ProvisionStep) -> (CmdSpec, ProvisionState) {
    match step {
        ProvisionStep::Run(c, s) => (c, s),
        ProvisionStep::Done(_) => panic!("expected another invocation"),
    }
}

#[test]
fn mode_normalization() {
    assert_eq!(mode_of(&None), DivergenceMode::Clone);
    assert_eq!(mode_of(&Some("clone".to_string())), DivergenceMode::Clone);
    assert_eq!(mode_of(&Some("worktree".to_string())), DivergenceMode::Worktree);
    assert_eq!(mode_of(&Some("WorkTree".to_string())), DivergenceMode::Worktree);
    assert_eq!(mode_of(&Some("worktrees".to_string())), DivergenceMode::Clone);
    assert_eq!(mode_name(DivergenceMode::Clone), "clone");
    assert_eq!(mode_name(DivergenceMode::Worktree), "worktree");
}

#[test]
fn derived_name_shape() {
    let name = divergence_dir_name("My App", "feat/login x");
    assert!(name.starts_with("my-app-feat-login-x-"));
    let suffix = &name["my-app-feat-login-x-".len()..];
    assert_eq!(suffix.len(), 8);
    assert!(suffix.chars().all(|c| c.is_ascii_hexdigit() && !c.is_ascii_uppercase()));
    // two draws differ with overwhelming probability
    let other = divergence_dir_name("My App", "feat/login x");
    assert_ne!(name, other);
}

fn skips(entries: &[&str]) -> Vec<String> {
    entries.iter().map(|e| e.to_string()).collect()
}

#[test]
fn clone_mode_full_run() {
    let skip = skips(&["secrets"]);
    let (cmd, st) = create_divergence("/src", "/root/ws", "feat", DivergenceMode::Clone, false);
    assert_eq!(cmd.args, vec!["clone", "--local", "/src", "/root/ws"]);
    // clone succeeded: read the source's origin
    let (cmd, st) = run_of(provision_step("/src", "/root/ws", "feat", &skip, false, st, &exited(true, Some(0), b"", b"")));
    assert_eq!(cmd.args, vec!["remote", "get-url", "origin"]);
    assert_eq!(cmd.cwd.as_deref(), Some("/src"));
    // the source has an origin: rewire the clone's to it
    let (cmd, st) = run_of(provision_step("/src", "/root/ws", "feat", &skip, false, st, &exited(true, Some(0), b"git@host:team/app.git\n", b"")));
    assert_eq!(cmd.args, vec!["remote", "set-url", "origin", "git@host:team/app.git"]);
    assert_eq!(cmd.cwd.as_deref(), Some("/root/ws"));
    // the rewrite failed: add the remote afresh, with the same URL
    let (cmd, st) = run_of(provision_step("/src", "/root/ws", "feat", &skip, false, st, &exited(false, Some(1), b"", b"")));
    assert_eq!(cmd.args, vec!["remote", "add", "origin", "git@host:team/app.git"]);
    // remote in place: create the branch
    let (cmd, st) = run_of(provision_step("/src", "/root/ws", "feat", &skip, false, st, &exited(true, Some(0), b"", b"")));
    assert_eq!(cmd.args, vec!["checkout", "-b", "feat"]);
    // branch created: list the source's ignored paths
    let (cmd, st) = run_of(provision_step("/src", "/root/ws", "feat", &skip, false, st, &exited(true, Some(0), b"", b"")));
    assert_eq!(cmd.args, vec!["ls-files", "--others", "-i", "--exclude-standard", "-z"]);
    assert_eq!(cmd.cwd.as_deref(), Some("/src"));
    // the carry-over excludes what the skip list names
    match provision_step("/src", "/root/ws", "feat", &skip, false, st, &exited(true, Some(0), b".env\0secrets/token\0", b"")) {
        ProvisionStep::Done(Ok(paths)) => assert_eq!(paths, vec![".env".to_string()]),
        _ => panic!("expected the carried-over paths"),
    }
}

#[test]
fn clone_failure_reports_tool_words() {
    let skip = skips(&[]);
    let (_, st) = create_divergence("/src", "/ws", "b", DivergenceMode::Clone, false);
    match provision_step("/src", "/ws", "b", &skip, false, st, &exited(false, Some(128), b"", b"fatal: no space")) {
        ProvisionStep::Done(Err(e)) => assert_eq!(e, "Git clone failed: fatal: no space"),
        _ => panic!("expected an error"),
    }
    let (_, st) = create_divergence("/src", "/ws", "b", DivergenceMode::Clone, false);
    match provision_step("/src", "/ws", "b", &skip, false, st, &RunOutcome::NotFound { message: "git missing".to_string() }) {
        ProvisionStep::Done(Err(e)) => assert_eq!(e, "Failed to execute git clone: git missing"),
        _ => panic!("expected an error"),
    }
}

#[test]
fn create_failure_falls_back_to_plain_checkout() {
    let skip = skips(&[]);
    let (_, st) = create_divergence("/src", "/ws", "b", DivergenceMode::Clone, false);
    let (_, st) = run_of(provision_step("/src", "/ws", "b", &skip, false, st, &exited(true, Some(0), b"", b"")));
    // no origin on the source: drop the clone's default one, then the branch
    let (cmd, st) = run_of(provision_step("/src", "/ws", "b", &skip, false, st, &exited(false, Some(2), b"", b"")));
    assert_eq!(cmd.args, vec!["remote", "remove", "origin"]);
    let (cmd, st) = run_of(provision_step("/src", "/ws", "b", &skip, false, st, &exited(true, Some(0), b"", b"")));
    assert_eq!(cmd.args, vec!["checkout", "-b", "b"]);
    // creation failed (the branch exists): check it out plainly
    let (cmd, st) = run_of(provision_step("/src", "/ws", "b", &skip, false, st, &exited(false, Some(128), b"", b"already exists")));
    assert_eq!(cmd.args, vec!["checkout", "b"]);
    // and a second failure is final
    match provision_step("/src", "/ws", "b", &skip, false, st, &exited(false, Some(1), b"", b"nope")) {
        ProvisionStep::Done(Err(e)) => assert_eq!(e, "Git checkout failed: nope"),
        _ => panic!("expected an error"),
    }
}

#[test]
fn existing_branch_resolves_local_first_then_remote() {
    let skip = skips(&[]);
    let (_, st) = create_divergence("/src", "/ws", "feat", DivergenceMode::Clone, true);
    let (_, st) = run_of(provision_step("/src", "/ws", "feat", &skip, true, st, &exited(true, Some(0), b"", b"")));
    // no origin recorded: drop the default one, then fetch before probing
    let (cmd, st) = run_of(provision_step("/src", "/ws", "feat", &skip, true, st, &exited(false, Some(2), b"", b"")));
    assert_eq!(cmd.args, vec!["remote", "remove", "origin"]);
    let (cmd, st) = run_of(provision_step("/src", "/ws", "feat", &skip, true, st, &exited(true, Some(0), b"", b"")));
    assert_eq!(cmd.args, vec!["fetch", "origin"]);
    // the fetch is best effort
    let (cmd, st) = run_of(provision_step("/src", "/ws", "feat", &skip, true, st, &exited(false, Some(1), b"", b"offline")));
    assert_eq!(cmd.args, vec!["show-ref", "--verify", "--quiet", "refs/heads/feat"]);
    // no local branch: probe the remote-tracking one
    let (cmd, st) = run_of(provision_step("/src", "/ws", "feat", &skip, true, st, &exited(false, Some(1), b"", b"")));
    assert_eq!(cmd.args, vec!["show-ref", "--verify", "--quiet", "refs/remotes/origin/feat"]);
    // found: attach it
    let (cmd, _) = run_of(provision_step("/src", "/ws", "feat", &skip, true, st, &exited(true, Some(0), b"", b"")));
    assert_eq!(cmd.args, vec!["checkout", "-b", "feat", "origin/feat"]);
}

#[test]
fn missing_existing_branch_is_descriptive() {
    let skip = skips(&[]);
    let (_, st) = create_divergence("/src", "/ws", "ghost", DivergenceMode::Clone, true);
    let (_, st) = run_of(provision_step("/src", "/ws", "ghost", &skip, true, st, &exited(true, Some(0), b"", b"")));
    let (_, st) = run_of(provision_step("/src", "/ws", "ghost", &skip, true, st, &exited(false, Some(2), b"", b"")));
    let (_, st) = run_of(provision_step("/src", "/ws", "ghost", &skip, true, st, &exited(true, Some(0), b"", b"")));
    let (_, st) = run_of(provision_step("/src", "/ws", "ghost", &skip, true, st, &exited(true, Some(0), b"", b"")));
    let (_, st) = run_of(provision_step("/src", "/ws", "ghost", &skip, true, st, &exited(false, Some(1), b"", b"")));
    match provision_step("/src", "/ws", "ghost", &skip, true, st, &exited(false, Some(1), b"", b"")) {
        ProvisionStep::Done(Err(e)) => assert_eq!(e, "Remote branch origin/ghost not found"),
        _ => panic!("expected an error"),
    }
}

#[test]
fn absent_origin_is_removed_not_kept() {
    let skip = skips(&[]);
    let (_, st) = create_divergence("/src", "/ws", "b", DivergenceMode::Clone, false);
    let (_, st) = run_of(provision_step("/src", "/ws", "b", &skip, false, st, &exited(true, Some(0), b"", b"")));
    // the source has no origin: the clone must not keep its default one
    let (cmd, st) = run_of(provision_step("/src", "/ws", "b", &skip, false, st, &exited(false, Some(2), b"", b"no such remote")));
    assert_eq!(cmd.args, vec!["remote", "remove", "origin"]);
    assert_eq!(cmd.cwd.as_deref(), Some("/ws"));
    // and a failed removal aborts the run
    match provision_step("/src", "/ws", "b", &skip, false, st, &exited(false, Some(1), b"", b"boom")) {
        ProvisionStep::Done(Err(e)) => assert_eq!(e, "Failed to remove origin URL: boom"),
        _ => panic!("expected an error"),
    }
}

#[test]
fn worktree_mode_creates_then_copies() {
    let skip = skips(&[]);
    let (cmd, st) = create_divergence("/src", "/ws", "feat", DivergenceMode::Worktree, false);
    assert_eq!(cmd.args, vec!["worktree", "add", "-b", "feat", "/ws"]);
    assert_eq!(cmd.cwd.as_deref(), Some("/src"));
    let (cmd, _) = run_of(provision_step("/src", "/ws", "feat", &skip, false, st, &exited(true, Some(0), b"", b"")));
    assert_eq!(cmd.args, vec!["ls-files", "--others", "-i", "--exclude-standard", "-z"]);
    let (cmd, _) = create_divergence("/src", "/ws", "feat", DivergenceMode::Worktree, true);
    assert_eq!(cmd.args, vec!["worktree", "add", "/ws", "feat"]);
}

#[test]
fn teardown_refuses_paths_outside_root() {
    let plan = teardown_plan("/etc/passwd", "/home/u/.divergence/repos", true, false, &None);
    match plan {
        TeardownPlan::Refuse(e) => {
            assert_eq!(e, "Cannot delete path outside of divergence repos directory")
        },
        _ => panic!("an outside path must be refused"),
    }
    // the observations do not matter for an outside path
    assert!(matches!(
        teardown_plan("/elsewhere", "/home/u/.divergence/repos", true, true, &None),
        TeardownPlan::Refuse(_)
    ));
    assert!(matches!(
        teardown_plan("/elsewhere", "/home/u/.divergence/repos", false, false, &None),
        TeardownPlan::Refuse(_)
    ));
}

#[test]
fn teardown_by_workspace_kind() {
    let root = "/home/u/.divergence/repos";
    let gitdir = Some("/code/app/.git/worktrees/app-x-12ab34cd".to_string());
    match teardown_plan("/home/u/.divergence/repos/app-x-12ab34cd", root, true, true, &gitdir) {
        TeardownPlan::DetachWorktree(cmd) => {
            assert_eq!(
                cmd.args,
                vec!["worktree", "remove", "--force", "/home/u/.divergence/repos/app-x-12ab34cd"],
            );
            // the invocation runs where git can resolve the repository
            assert_eq!(cmd.cwd.as_deref(), Some("/code/app/.git"));
        },
        _ => panic!("a linked worktree is detached, not deleted"),
    }
    // without a readable marker pointer the worktree path itself is used
    match teardown_plan("/home/u/.divergence/repos/app-x-12ab34cd", root, true, true, &None) {
        TeardownPlan::DetachWorktree(cmd) => {
            assert_eq!(cmd.cwd.as_deref(), Some("/home/u/.divergence/repos/app-x-12ab34cd"));
        },
        _ => panic!("a linked worktree is detached, not deleted"),
    }
    assert!(matches!(
        teardown_plan("/home/u/.divergence/repos/app-y-55aa66bb", root, true, false, &None),
        TeardownPlan::RemoveTree
    ));
    assert!(matches!(
        teardown_plan("/home/u/.divergence/repos/gone", root, false, false, &None),
        TeardownPlan::Nothing
    ));
}

#[test]
fn worktree_marker_pointer_is_parsed() {
    let got = worktree_gitdir_target(b"gitdir: /code/app/.git/worktrees/ws-1
");
    assert_eq!(got.as_deref(), Some("/code/app/.git/worktrees/ws-1"));
    assert_eq!(worktree_gitdir_target(b"  gitdir:/x/.git/worktrees/y"), Some("/x/.git/worktrees/y".to_string()));
    assert_eq!(worktree_gitdir_target(b"ref: refs/heads/main
"), None);
    assert_eq!(worktree_gitdir_target(b""), None);
}

#[test]
fn containment_is_not_a_prefix_check_on_names() {
    let root = "/home/u/.divergence/repos";
    assert!(is_inside_root(root, root));
    assert!(is_inside_root("/home/u/.divergence/repos/a", root));
    assert!(!is_inside_root("/home/u/.divergence/repos-evil/a", root));
    assert!(!is_inside_root("/home/u", root));
}
