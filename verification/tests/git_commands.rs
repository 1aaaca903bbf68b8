use githop::git::{
    branches_command, create_branch, delete_branch, get_log, list_branches, log_lines,
    merged_branches_command, rename_branch, run_git, switch_branch, GitOutput,
};

fn out(success: bool, stdout: &str, stderr: &str) -> Option<GitOutput> {
    Some(GitOutput {
        success,
        stdout: stdout.as_bytes().to_vec(),
        stderr: stderr.as_bytes().to_vec(),
        status: "exit status: 1".to_string(),
    })
}

fn args(v: &[&str]) -> Vec<String> {
    v.iter().map(|s| s.to_string()).collect()
}

#[test]
fn command_lines_are_exact() {
    assert_eq!(switch_branch("dev").args, args(&["switch", "dev"]));
    assert_eq!(delete_branch("dev", false).args, args(&["branch", "-d", "dev"]));
    assert_eq!(delete_branch("dev", true).args, args(&["branch", "-D", "dev"]));
    assert_eq!(create_branch("x").args, args(&["branch", "x"]));
    assert_eq!(rename_branch("a", "b").args, args(&["branch", "-m", "a", "b"]));
    assert_eq!(
        get_log("main", 20).args,
        args(&["log", "main", "-20", "--oneline", "--no-decorate"])
    );
    assert_eq!(get_log("main", 0).args[2], "-0");
    assert_eq!(get_log("main", 1234).args[2], "-1234");
    assert_eq!(merged_branches_command().args, args(&["branch", "--merged"]));
    assert_eq!(branches_command().args, args(&["branch"]));
}

#[test]
fn command_contexts_are_exact() {
    assert_eq!(
        switch_branch("dev").context.unwrap(),
        "Could not switch to 'dev'. Do you have uncommitted changes?"
    );
    assert_eq!(delete_branch("dev", true).context.unwrap(), "Could not delete branch 'dev'");
    assert_eq!(
        create_branch("x").context.unwrap(),
        "Could not create branch 'x'. Does it already exist?"
    );
    assert_eq!(rename_branch("a", "b").context.unwrap(), "Could not rename 'a' to 'b'");
    assert!(get_log("main", 20).context.is_none());
}

#[test]
fn run_git_success_gives_stdout() {
    let r = run_git(&args(&["branch"]), &out(true, "* main\n", "ignored"));
    assert_eq!(r, Ok("* main\n".to_string()));
}

#[test]
fn run_git_failure_gives_trimmed_stderr() {
    let r = run_git(&args(&["switch", "x"]), &out(false, "", "  fatal: invalid reference: x\n"));
    assert_eq!(r, Err("fatal: invalid reference: x".to_string()));
}

#[test]
fn run_git_silent_failure_names_command_and_status() {
    let r = run_git(&args(&["branch", "-d", "x"]), &out(false, "", " \n"));
    assert_eq!(r, Err("git branch -d x exited with exit status: 1".to_string()));
}

#[test]
fn run_git_not_started() {
    let r = run_git(&args(&["log", "main"]), &None);
    assert_eq!(r, Err("failed to run: git log main".to_string()));
}

#[test]
fn command_result_uses_context_on_failure() {
    let cmd = switch_branch("dev");
    assert_eq!(
        cmd.result(&out(false, "", "error: your local changes")),
        Err("Could not switch to 'dev'. Do you have uncommitted changes?".to_string())
    );
    assert_eq!(cmd.result(&out(true, "ok", "")), Ok("ok".to_string()));
    assert_eq!(
        get_log("main", 20).result(&out(false, "", "fatal: bad revision")),
        Err("fatal: bad revision".to_string())
    );
}

#[test]
fn list_branches_combines_both_runs() {
    let bs = list_branches(
        &out(true, "  feature-a\n* main\n", ""),
        &out(true, "  feature-a\n* main\n  feature-b\n", ""),
    )
    .unwrap();
    assert_eq!(bs.len(), 3);
    assert!(bs[0].is_merged && bs[1].is_merged && !bs[2].is_merged);
    assert!(bs[1].is_current);
}

#[test]
fn list_branches_without_merged_list() {
    let bs = list_branches(&None, &out(true, "* main\n  dev\n", "")).unwrap();
    assert!(!bs[0].is_merged && !bs[1].is_merged);
}

#[test]
fn list_branches_fails_with_git_message() {
    let r = list_branches(
        &out(true, "", ""),
        &out(false, "", "fatal: not a git repository\n"),
    );
    assert_eq!(r.err().unwrap(), "fatal: not a git repository");
}

#[test]
fn log_lines_splits_lines() {
    assert_eq!(log_lines("abc1234 fix: bug\ndef5678 feat: login\n"), vec![
        "abc1234 fix: bug",
        "def5678 feat: login"
    ]);
    assert_eq!(log_lines("a\r\nb\rc"), vec!["a", "b\rc"]);
    assert!(log_lines("").is_empty());
    assert_eq!(log_lines("\n"), vec![""]);
}

#[test]
fn invalid_utf8_output_is_decoded_lossily() {
    let o = Some(GitOutput {
        success: true,
        stdout: vec![b'a', 0xff, b'b'],
        stderr: Vec::new(),
        status: String::new(),
    });
    assert_eq!(run_git(&args(&["branch"]), &o), Ok("a\u{fffd}b".to_string()));
    let e = Some(GitOutput {
        success: false,
        stdout: Vec::new(),
        stderr: vec![b' ', 0xc3, 0xa9, b'\n'],
        status: String::new(),
    });
    assert_eq!(run_git(&args(&["branch"]), &e), Err("é".to_string()));
}
