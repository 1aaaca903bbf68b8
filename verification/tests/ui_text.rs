use githop::app::{App, InputMode, Key, Reply};
use githop::git::GitOutput;
use githop::ui::{branch_rows, help_text, list_title, message_bar, preview_title, BarStyle, RowStyle};

fn ok(stdout: &str) -> Option<GitOutput> {
    Some(GitOutput {
        success: true,
        stdout: stdout.as_bytes().to_vec(),
        stderr: Vec::new(),
        status: "exit status: 0".to_string(),
    })
}

fn started() -> App {
    let mut app = App::new(ok(""), ok("  feature-a\n* main\n  feature-b\n")).unwrap();
    app.resume(Reply::Git(ok("")));
    app
}

#[test]
fn rows_mark_current_and_selected() {
    let mut app = started();
    let rows = branch_rows(&app);
    assert_eq!(rows.len(), 3);
    assert_eq!(rows[0].text, "  feature-a");
    assert_eq!(rows[0].style, RowStyle::Plain);
    assert_eq!(rows[1].text, "* main");
    assert_eq!(rows[1].style, RowStyle::Selected);
    app.handle_key(Key::Down);
    let rows = branch_rows(&app);
    assert_eq!(rows[1].style, RowStyle::Current);
    assert_eq!(rows[2].style, RowStyle::Selected);
}

#[test]
fn titles() {
    let mut app = started();
    assert_eq!(list_title(&app), " Branches (3) ");
    assert_eq!(preview_title(&app), " Preview: main ");
    app.handle_key(Key::Char('/'));
    app.handle_key(Key::Char('b'));
    assert_eq!(list_title(&app), " Branches (1) [filter: b] ");
    app.resume(Reply::Git(ok("")));
    app.handle_key(Key::Char('q'));
    assert_eq!(list_title(&app), " Branches (0) [filter: bq] ");
    assert_eq!(preview_title(&app), " Preview ");
}

#[test]
fn message_bar_per_mode() {
    let mut app = started();
    assert_eq!(message_bar(&app), (String::new(), BarStyle::Info));
    app.handle_key(Key::Char('/'));
    app.handle_key(Key::Char('f'));
    assert_eq!(message_bar(&app), ("/f█".to_string(), BarStyle::Input));
    app.resume(Reply::Git(ok("")));
    app.handle_key(Key::Esc);
    app.resume(Reply::Git(ok("")));
    app.handle_key(Key::Char('n'));
    app.handle_key(Key::Char('x'));
    assert_eq!(message_bar(&app), ("Create from 'main': > x█".to_string(), BarStyle::Input));
    app.handle_key(Key::Esc);
    app.handle_key(Key::Char('r'));
    assert_eq!(message_bar(&app), ("Rename to: main█".to_string(), BarStyle::Input));
    app.handle_key(Key::Esc);
    app.handle_key(Key::Up);
    app.resume(Reply::Git(ok("")));
    app.handle_key(Key::Char('d'));
    assert_eq!(
        message_bar(&app),
        ("⚠ 'feature-a' is not fully merged. [d] force delete  [n] cancel".to_string(), BarStyle::Warning)
    );
}

#[test]
fn help_per_mode() {
    assert_eq!(help_text(InputMode::Confirm), " [y/n] or [d/n] see above");
    assert_eq!(help_text(InputMode::Filter), " [Enter] apply  [Esc] cancel");
    assert_eq!(help_text(InputMode::Create), " [Enter] confirm  [Esc] cancel");
    assert_eq!(help_text(InputMode::Rename), " [Enter] confirm  [Esc] cancel");
    assert_eq!(
        help_text(InputMode::Normal),
        " [Enter]switch [y]copy [d]delete [n]new [r]rename [/]filter [q]quit"
    );
}
