//! What the screen shows: the text and the kind of emphasis of each part.
//! Laying it out and painting it is left to the caller.

use vstd::prelude::*;
use crate::app::{App, AppView, InputMode};
use crate::model::{as_ints, filtered, lemma_filtered, selected_of};
use crate::git::BranchView;
use crate::text::{decimal, push_decimal};

verus! {

/// How a row of the branch list is emphasised.
#[derive(Clone, Copy, Debug, PartialEq, Eq, Structural)]
pub enum RowStyle {
    /// The selected row.
    Selected,
    /// The checked-out branch, when not selected.
    Current,
    /// Any other row.
    Plain,
}

/// A row of the branch list.
pub struct Row {
    pub text: String,
    pub style: RowStyle,
}

/// How the message bar is coloured.
#[derive(Clone, Copy, Debug, PartialEq, Eq, Structural)]
pub enum BarStyle {
    /// A prompt that is being typed into.
    Input,
    /// A question that needs an answer.
    Warning,
    /// An informative message.
    Info,
}

/// The row for branch `b`: the checked-out branch is marked with `*`.
pub open spec fn row_spec(b: BranchView, selected: bool) -> (Seq<char>, RowStyle) {
    (
        (if b.is_current {
            "* "@
        } else {
            "  "@
        }) + b.name,
        if selected {
            RowStyle::Selected
        } else if b.is_current {
            RowStyle::Current
        } else {
            RowStyle::Plain
        },
    )
}

/// The rows of the branch list: one per filtered branch, in order.
pub open spec fn rows_spec(s: AppView) -> Seq<(Seq<char>, RowStyle)> {
    let f = filtered(s.branches, s.filter);
    Seq::new(f.len(), |i: int| row_spec(s.branches[f[i]], i == s.selected))
}

/// The title of the branch list: the number of branches shown, and the
/// filter when there is one.
pub open spec fn list_title_spec(s: AppView) -> Seq<char> {
    let n = filtered(s.branches, s.filter).len();
    if s.filter.len() == 0 {
        " Branches ("@ + decimal(n) + ") "@
    } else {
        " Branches ("@ + decimal(n) + ") [filter: "@ + s.filter + "] "@
    }
}

/// The title of the preview: the selected branch, if any.
pub open spec fn preview_title_spec(s: AppView) -> Seq<char> {
    match selected_of(s) {
        Some(b) => " Preview: "@ + b.name + " "@,
        None => " Preview "@,
    }
}

/// The message bar: the line being typed in a prompt, else the status.
pub open spec fn message_spec(s: AppView) -> (Seq<char>, BarStyle) {
    match s.input_mode {
        InputMode::Filter => ("/"@ + s.filter + "█"@, BarStyle::Input),
        InputMode::Create => (
            match s.status {
                Some(m) => m,
                None => "New branch:"@,
            } + " > "@ + s.input_buf + "█"@,
            BarStyle::Input,
        ),
        InputMode::Rename => ("Rename to: "@ + s.input_buf + "█"@, BarStyle::Input),
        InputMode::Confirm => (
            match s.status {
                Some(m) => m,
                None => Seq::empty(),
            },
            BarStyle::Warning,
        ),
        InputMode::Normal => (
            match s.status {
                Some(m) => m,
                None => Seq::empty(),
            },
            BarStyle::Info,
        ),
    }
}

/// The key help for each mode.
pub open spec fn help_spec(mode: InputMode) -> Seq<char> {
    match mode {
        InputMode::Confirm => " [y/n] or [d/n] see above"@,
        InputMode::Filter => " [Enter] apply  [Esc] cancel"@,
        InputMode::Create => " [Enter] confirm  [Esc] cancel"@,
        InputMode::Rename => " [Enter] confirm  [Esc] cancel"@,
        InputMode::Normal => " [Enter]switch [y]copy [d]delete [n]new [r]rename [/]filter [q]quit"@,
    }
}

/// The rows of the branch list.
pub fn branch_rows(app: &App) -> (rows: Vec<Row>)
    ensures
        rows@.map_values(|r: Row| (r.text@, r.style)) == rows_spec(app@),
{
    let f = app.filtered_indices();
    let ghost s = app@;
    let ghost fi = filtered(s.branches, s.filter);
    proof {
        lemma_filtered(s.branches, s.filter);
    }
    let mut rows: Vec<Row> = Vec::new();
    let n = f.len();
    for i in 0..n
        invariant
            n == f@.len(),
            s == app@,
            as_ints(f@) == fi,
            fi == filtered(s.branches, s.filter),
            forall|k: int| 0 <= k < fi.len() ==> 0 <= #[trigger] fi[k] < s.branches.len(),
            rows@.len() == i,
            forall|k: int|
                0 <= k < i ==> (#[trigger] rows@[k].text@, rows@[k].style) == row_spec(
                    s.branches[fi[k]],
                    k == s.selected,
                ),
    {
        assert(fi[i as int] == f@[i as int]);
        let b = &app.branches[f[i]];
        let mut text = if b.is_current {
            String::from_str("* ")
        } else {
            String::from_str("  ")
        };
        text.append(b.name.as_str());
        let style = if i == app.selected {
            RowStyle::Selected
        } else if b.is_current {
            RowStyle::Current
        } else {
            RowStyle::Plain
        };
        rows.push(Row { text, style });
    }
    assert(rows@.map_values(|r: Row| (r.text@, r.style)) =~= rows_spec(app@));
    rows
}

/// The title of the branch list.
pub fn list_title(app: &App) -> (t: String)
    ensures
        t@ == list_title_spec(app@),
{
    let n = app.filtered_indices().len();
    let mut t = String::from_str(" Branches (");
    push_decimal(&mut t, n);
    if app.filter.as_str().is_empty() {
        t.append(") ");
    } else {
        t.append(") [filter: ");
        t.append(app.filter.as_str());
        t.append("] ");
    }
    t
}

/// The title of the preview pane.
pub fn preview_title(app: &App) -> (t: String)
    ensures
        t@ == preview_title_spec(app@),
{
    match app.selected_branch() {
        Some(b) => {
            let mut t = String::from_str(" Preview: ");
            t.append(b.name.as_str());
            t.append(" ");
            t
        },
        None => String::from_str(" Preview "),
    }
}

/// The message bar and its colouring.
pub fn message_bar(app: &App) -> (m: (String, BarStyle))
    ensures
        (m.0@, m.1) == message_spec(app@),
{
    let status = match &app.status_message {
        Some(m) => m.clone(),
        None => String::new(),
    };
    match app.input_mode {
        InputMode::Filter => {
            let mut t = String::from_str("/");
            t.append(app.filter.as_str());
            t.append("█");
            (t, BarStyle::Input)
        },
        InputMode::Create => {
            let mut t = match &app.status_message {
                Some(m) => m.clone(),
                None => String::from_str("New branch:"),
            };
            t.append(" > ");
            t.append(app.input_buf.as_str());
            t.append("█");
            (t, BarStyle::Input)
        },
        InputMode::Rename => {
            let mut t = String::from_str("Rename to: ");
            t.append(app.input_buf.as_str());
            t.append("█");
            (t, BarStyle::Input)
        },
        InputMode::Confirm => (status, BarStyle::Warning),
        InputMode::Normal => (status, BarStyle::Info),
    }
}

/// The key help for the mode.
pub fn help_text(mode: InputMode) -> (t: &'static str)
    ensures
        t@ == help_spec(mode),
{
    match mode {
        InputMode::Confirm => " [y/n] or [d/n] see above",
        InputMode::Filter => " [Enter] apply  [Esc] cancel",
        InputMode::Create | InputMode::Rename => " [Enter] confirm  [Esc] cancel",
        InputMode::Normal => " [Enter]switch [y]copy [d]delete [n]new [r]rename [/]filter [q]quit",
    }
}

} // verus!
