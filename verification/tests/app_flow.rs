use githop::app::{App, ConfirmAction, InputMode, Key, Reply, Request};
use githop::git::GitOutput;

fn ok(stdout: &str) -> Option<GitOutput> {
    Some(GitOutput {
        success: true,
        stdout: stdout.as_bytes().to_vec(),
        stderr: Vec::new(),
        status: "exit status: 0".to_string(),
    })
}

fn failed(stderr: &str) -> Option<GitOutput> {
    Some(GitOutput {
        success: false,
        stdout: Vec::new(),
        stderr: stderr.as_bytes().to_vec(),
        status: "exit status: 1".to_string(),
    })
}

const LISTING: &str = "  feature-a\n* main\n  feature-b\n";
const MERGED: &str = "  feature-a\n* main\n";

fn pending_args(app: &App) -> Vec<String> {
    match &app.pending.as_ref().expect("a request").request {
        Request::Git(cmd) => cmd.args.clone(),
        Request::Copy(t) => vec!["<copy>".to_string(), t.clone()],
    }
}

/// Starts the app and answers the preview request.
fn started() -> App {
    let mut app = App::new(ok(MERGED), ok(LISTING)).unwrap();
    app.resume(Reply::Git(ok("abc1234 fix: bug\n")));
    assert!(app.pending.is_none());
    app
}

fn names(app: &App) -> Vec<String> {
    app.filtered_indices().iter().map(|&i| app.branches[i].name.clone()).collect()
}

#[test]
fn start_selects_current_branch_and_asks_for_its_log() {
    let app = App::new(ok(MERGED), ok(LISTING)).unwrap();
    assert_eq!(app.selected, 1);
    assert_eq!(app.selected_branch().unwrap().name, "main");
    assert_eq!(pending_args(&app), vec!["log", "main", "-20", "--oneline", "--no-decorate"]);
    assert_eq!(app.input_mode, InputMode::Normal);
}

#[test]
fn start_fails_when_branches_cannot_be_listed() {
    let r = App::new(ok(MERGED), failed("fatal: not a git repository\n"));
    assert_eq!(r.err().unwrap(), "fatal: not a git repository");
}

#[test]
fn preview_shows_log_lines_or_nothing_on_error() {
    let app = started();
    assert_eq!(app.preview_commits, vec!["abc1234 fix: bug"]);
    let mut app = App::new(ok(MERGED), ok(LISTING)).unwrap();
    app.resume(Reply::Git(failed("fatal: bad revision")));
    assert!(app.preview_commits.is_empty());
}

#[test]
fn navigation_wraps_and_round_trips() {
    let mut app = started();
    app.handle_key(Key::Char('j'));
    assert_eq!(app.selected, 2);
    assert_eq!(pending_args(&app)[1], "feature-b");
    app.resume(Reply::Git(ok("")));
    app.handle_key(Key::Down);
    assert_eq!(app.selected, 0);
    app.resume(Reply::Git(ok("")));
    app.handle_key(Key::Up);
    assert_eq!(app.selected, 2);
    app.resume(Reply::Git(ok("")));
    app.handle_key(Key::Char('k'));
    assert_eq!(app.selected, 1);
}

#[test]
fn quit_keys() {
    let mut app = started();
    app.handle_key(Key::Char('q'));
    assert!(app.should_quit);
    let mut app = started();
    app.handle_key(Key::Esc);
    assert!(app.should_quit);
}

#[test]
fn switching_to_current_branch_does_nothing() {
    let mut app = started();
    app.handle_key(Key::Enter);
    assert!(app.pending.is_none());
    assert!(!app.should_quit);
}

#[test]
fn switching_quits_on_success_and_reports_failure() {
    let mut app = started();
    app.handle_key(Key::Up);
    app.resume(Reply::Git(ok("")));
    app.handle_key(Key::Enter);
    assert_eq!(pending_args(&app), vec!["switch", "feature-a"]);
    app.resume(Reply::Git(failed("error: Your local changes would be overwritten")));
    assert!(!app.should_quit);
    assert_eq!(
        app.status_message.as_deref(),
        Some("Could not switch to 'feature-a'. Do you have uncommitted changes?")
    );
    app.handle_key(Key::Enter);
    assert!(app.status_message.is_none());
    app.resume(Reply::Git(ok("")));
    assert!(app.should_quit);
}

#[test]
fn copy_reports_success_and_failure() {
    let mut app = started();
    app.handle_key(Key::Char('y'));
    assert_eq!(pending_args(&app), vec!["<copy>", "main"]);
    app.resume(Reply::Copied(Ok(())));
    assert_eq!(app.status_message.as_deref(), Some("Copied 'main'"));
    app.handle_key(Key::Char('y'));
    app.resume(Reply::Copied(Err("Clipboard not available. Is 'xclip' installed?".to_string())));
    assert_eq!(
        app.status_message.as_deref(),
        Some("Clipboard not available. Is 'xclip' installed?")
    );
}

#[test]
fn reply_of_the_wrong_kind_changes_nothing() {
    let mut app = started();
    app.handle_key(Key::Char('y'));
    app.resume(Reply::Git(ok("x")));
    assert!(app.pending.is_some());
    assert!(app.status_message.is_none());
    app.resume(Reply::Copied(Ok(())));
    app.resume(Reply::Copied(Ok(())));
    assert_eq!(app.status_message.as_deref(), Some("Copied 'main'"));
}

#[test]
fn current_branch_cannot_be_deleted() {
    let mut app = started();
    app.handle_key(Key::Char('d'));
    assert_eq!(app.status_message.as_deref(), Some("Cannot delete current branch"));
    assert_eq!(app.input_mode, InputMode::Normal);
    assert!(app.confirm_action.is_none());
}

#[test]
fn merged_branch_delete_with_y() {
    let mut app = started();
    app.handle_key(Key::Up);
    app.resume(Reply::Git(ok("")));
    app.handle_key(Key::Char('d'));
    assert_eq!(app.input_mode, InputMode::Confirm);
    assert_eq!(app.status_message.as_deref(), Some("Delete branch 'feature-a'? [y/n]"));
    app.handle_key(Key::Char('y'));
    assert_eq!(pending_args(&app), vec!["branch", "-d", "feature-a"]);
    app.resume(Reply::Git(ok("Deleted branch feature-a\n")));
    assert_eq!(app.status_message.as_deref(), Some("Deleted branch 'feature-a'"));
    assert_eq!(app.input_mode, InputMode::Normal);
    assert!(app.confirm_action.is_none());
    assert_eq!(pending_args(&app), vec!["branch", "--merged"]);
    app.resume(Reply::Git(ok("* main\n")));
    assert_eq!(pending_args(&app), vec!["branch"]);
    app.resume(Reply::Git(ok("* main\n  feature-b\n")));
    assert_eq!(app.branches.len(), 2);
    assert_eq!(app.selected, 0);
    assert_eq!(pending_args(&app)[1], "main");
}

#[test]
fn unmerged_branch_needs_d_before_y() {
    let mut app = started();
    app.handle_key(Key::Down);
    app.resume(Reply::Git(ok("")));
    app.handle_key(Key::Char('d'));
    assert_eq!(
        app.status_message.as_deref(),
        Some("⚠ 'feature-b' is not fully merged. [d] force delete  [n] cancel")
    );
    app.handle_key(Key::Char('y'));
    assert!(app.pending.is_none());
    assert_eq!(app.input_mode, InputMode::Confirm);
    app.handle_key(Key::Char('d'));
    assert_eq!(
        app.status_message.as_deref(),
        Some("Force delete 'feature-b' ? [y] confirm  [n] cancel")
    );
    match app.confirm_action.as_ref().unwrap() {
        ConfirmAction::Delete { branch, is_merged, force } => {
            assert_eq!(branch, "feature-b");
            assert!(!is_merged);
            assert!(*force);
        }
    }
    app.handle_key(Key::Char('y'));
    assert_eq!(pending_args(&app), vec!["branch", "-D", "feature-b"]);
    app.resume(Reply::Git(failed("error: boom")));
    assert_eq!(app.status_message.as_deref(), Some("Could not delete branch 'feature-b'"));
    app.resume(Reply::Git(failed("")));
    app.resume(Reply::Git(failed("fatal")));
    assert_eq!(app.branches.len(), 3);
    assert!(app.pending.is_none());
}

#[test]
fn confirmation_can_be_cancelled() {
    let mut app = started();
    app.handle_key(Key::Down);
    app.resume(Reply::Git(ok("")));
    app.handle_key(Key::Char('d'));
    app.handle_key(Key::Char('n'));
    assert_eq!(app.input_mode, InputMode::Normal);
    assert!(app.confirm_action.is_none());
    assert!(app.status_message.is_none());
    app.handle_key(Key::Char('d'));
    app.handle_key(Key::Esc);
    assert_eq!(app.input_mode, InputMode::Normal);
    assert!(app.pending.is_none());
}

#[test]
fn filter_narrows_case_insensitively_and_escape_clears() {
    let mut app = started();
    app.handle_key(Key::Char('/'));
    assert_eq!(app.input_mode, InputMode::Filter);
    assert_eq!(app.status_message.as_deref(), Some("Filter:"));
    for c in "FEAT".chars() {
        app.handle_key(Key::Char(c));
        app.resume(Reply::Git(ok("")));
    }
    assert_eq!(names(&app), vec!["feature-a", "feature-b"]);
    assert_eq!(app.selected, 0);
    app.handle_key(Key::Backspace);
    app.resume(Reply::Git(ok("")));
    assert_eq!(app.filter, "FEA");
    app.handle_key(Key::Char('z'));
    assert!(names(&app).is_empty());
    assert!(app.selected_branch().is_none());
    assert!(app.pending.is_none());
    assert!(app.preview_commits.is_empty());
    app.handle_key(Key::Esc);
    assert_eq!(app.filter, "");
    assert_eq!(names(&app), vec!["feature-a", "main", "feature-b"]);
    assert_eq!(app.selected, 1);
    assert_eq!(app.input_mode, InputMode::Normal);
}

#[test]
fn filter_enter_keeps_filter() {
    let mut app = started();
    app.handle_key(Key::Char('/'));
    app.handle_key(Key::Char('b'));
    app.resume(Reply::Git(ok("")));
    app.handle_key(Key::Enter);
    assert_eq!(app.input_mode, InputMode::Normal);
    assert_eq!(app.filter, "b");
    assert_eq!(names(&app), vec!["feature-b"]);
}

#[test]
fn create_shows_source_and_trims_name() {
    let mut app = started();
    app.handle_key(Key::Char('n'));
    assert_eq!(app.input_mode, InputMode::Create);
    assert_eq!(app.status_message.as_deref(), Some("Create from 'main':"));
    for c in " new-x ".chars() {
        app.handle_key(Key::Char(c));
    }
    app.handle_key(Key::Char('y'));
    app.handle_key(Key::Backspace);
    assert_eq!(app.input_buf, " new-x ");
    app.handle_key(Key::Enter);
    assert_eq!(app.input_mode, InputMode::Normal);
    assert!(app.input_buf.is_empty());
    assert_eq!(pending_args(&app), vec!["branch", "new-x"]);
    app.resume(Reply::Git(ok("")));
    assert_eq!(app.status_message.as_deref(), Some("Created branch 'new-x'"));
    assert_eq!(pending_args(&app), vec!["branch", "--merged"]);
}

#[test]
fn create_with_blank_name_does_nothing() {
    let mut app = started();
    app.handle_key(Key::Char('n'));
    app.handle_key(Key::Char(' '));
    app.handle_key(Key::Enter);
    assert!(app.pending.is_none());
    assert_eq!(app.input_mode, InputMode::Normal);
}

#[test]
fn create_from_head_without_current_branch() {
    let mut app = App::new(ok(""), ok("  a\n  b\n")).unwrap();
    assert_eq!(app.selected, 0);
    app.resume(Reply::Git(ok("")));
    app.handle_key(Key::Char('n'));
    assert_eq!(app.status_message.as_deref(), Some("Create from 'HEAD':"));
    app.handle_key(Key::Esc);
    assert_eq!(app.input_mode, InputMode::Normal);
    assert!(app.status_message.is_none());
}

#[test]
fn rename_prefills_and_renames() {
    let mut app = started();
    app.handle_key(Key::Char('r'));
    assert_eq!(app.input_mode, InputMode::Rename);
    assert_eq!(app.input_buf, "main");
    assert_eq!(app.status_message.as_deref(), Some("Rename to:"));
    app.handle_key(Key::Enter);
    assert!(app.pending.is_none());
    app.handle_key(Key::Char('r'));
    app.handle_key(Key::Char('2'));
    app.handle_key(Key::Enter);
    assert_eq!(pending_args(&app), vec!["branch", "-m", "main", "main2"]);
    app.resume(Reply::Git(ok("")));
    assert_eq!(app.status_message.as_deref(), Some("Renamed 'main' → 'main2'"));
}

#[test]
fn refresh_clamps_selection() {
    let mut app = started();
    app.handle_key(Key::Down);
    app.resume(Reply::Git(ok("")));
    app.handle_key(Key::Char('n'));
    app.handle_key(Key::Char('x'));
    app.handle_key(Key::Enter);
    app.resume(Reply::Git(ok("")));
    app.resume(Reply::Git(None));
    app.resume(Reply::Git(ok("* main\n")));
    assert_eq!(app.branches.len(), 1);
    assert!(!app.branches[0].is_merged);
    assert_eq!(app.selected, 0);
}

#[test]
fn keys_that_would_overflow_are_refused() {
    let mut app = started();
    assert!(app.accepts_key(Key::Down) && app.accepts_key(Key::Up));
    app.selected = usize::MAX;
    assert!(!app.accepts_key(Key::Down));
    assert!(!app.accepts_key(Key::Char('j')));
    assert!(!app.accepts_key(Key::Up));
    assert!(app.accepts_key(Key::Char('q')));
    app.selected = 7;
    assert!(app.accepts_key(Key::Char('k')));
    app.handle_key(Key::Char('k'));
    assert_eq!(app.selected, (7 + 3 - 1) % 3);
}

#[test]
fn narrower_filter_never_shows_more() {
    let listing = "  feature-a\n* main\n  feature-b\n  Fix\n";
    let mut wide = App::new(ok(""), ok(listing)).unwrap();
    let mut narrow = App::new(ok(""), ok(listing)).unwrap();
    wide.filter = "f".to_string();
    narrow.filter = "FEAT".to_string();
    assert_eq!(wide.filtered_indices(), vec![0, 2, 3]);
    assert_eq!(narrow.filtered_indices(), vec![0, 2]);
    narrow.filter = String::new();
    assert_eq!(narrow.filtered_indices(), vec![0, 1, 2, 3]);
}

#[test]
fn confirm_mode_goes_with_a_confirm_action() {
    let mut app = started();
    let keys = [
        Key::Down, Key::Char('d'), Key::Char('y'), Key::Char('d'), Key::Esc, Key::Char('d'),
        Key::Char('n'), Key::Char('d'), Key::Char('d'), Key::Char('y'),
    ];
    for k in keys {
        app.handle_key(k);
        while app.pending.is_some() {
            app.resume(Reply::Git(ok("")));
            assert_eq!(app.input_mode == InputMode::Confirm, app.confirm_action.is_some());
        }
        assert_eq!(app.input_mode == InputMode::Confirm, app.confirm_action.is_some());
    }
}
