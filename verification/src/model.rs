//! The model of the switcher: what each key and each outcome does to the
//! state, as functions on `AppView`. `App` is held to these.

use vstd::prelude::*;
use crate::app::{
    AppView, ConfirmView, ContinuationView, InputMode, Key, PendingView, ReplyView, RequestView,
};
use crate::git::{
    branches_spec, command_result, create_spec, delete_spec, listed_branches, log_spec,
    merged_branches_spec, rename_spec, switch_spec, BranchView, OutputView,
};
use crate::text::{is_infix, lines, lowercase, trim};

verus! {

/// The model of an outcome.
pub open spec fn result_view(r: Result<String, String>) -> Result<Seq<char>, Seq<char>> {
    match r {
        Ok(o) => Ok(o@),
        Err(e) => Err(e@),
    }
}

/// How many commits the preview shows.
pub const PREVIEW_COMMITS: usize = 20;

/// A branch passes the filter when the filter is empty, or when its name
/// contains the filter, both lowercased.
pub open spec fn matches_filter(name: Seq<char>, filter: Seq<char>) -> bool {
    filter.len() == 0 || is_infix(lowercase(filter), lowercase(name))
}

/// The positions, in order, of the branches that pass the filter.
pub open spec fn filtered(bs: Seq<BranchView>, filter: Seq<char>) -> Seq<int>
    decreases bs.len(),
{
    if bs.len() == 0 {
        seq![]
    } else if matches_filter(bs.last().name, filter) {
        filtered(bs.drop_last(), filter).push(bs.len() - 1)
    } else {
        filtered(bs.drop_last(), filter)
    }
}

/// The selected branch, if the selection points into the filtered list.
pub open spec fn selected_of(s: AppView) -> Option<BranchView> {
    let f = filtered(s.branches, s.filter);
    if 0 <= s.selected < f.len() {
        Some(s.branches[f[s.selected]])
    } else {
        None
    }
}

/// The first position at or after `i` in `f` whose branch is the current one.
pub open spec fn first_current(bs: Seq<BranchView>, f: Seq<int>, i: int) -> Option<int>
    decreases f.len() - i,
{
    if i < 0 || i >= f.len() {
        None
    } else if bs[f[i]].is_current {
        Some(i)
    } else {
        first_current(bs, f, i + 1)
    }
}

/// Selects the current branch when the filtered list shows it.
pub open spec fn select_current(s: AppView) -> AppView {
    match first_current(s.branches, filtered(s.branches, s.filter), 0) {
        Some(i) => AppView { selected: i, ..s },
        None => s,
    }
}

/// The name of the first branch marked current, or `"HEAD"`.
pub open spec fn current_name(bs: Seq<BranchView>) -> Seq<char>
    decreases bs.len(),
{
    if bs.len() == 0 {
        "HEAD"@
    } else if bs[0].is_current {
        bs[0].name
    } else {
        current_name(bs.drop_first())
    }
}

/// Asks for the commits of the selected branch, or empties the preview when
/// none is selected.
pub open spec fn show_preview(s: AppView) -> AppView {
    match selected_of(s) {
        Some(b) => AppView {
            pending: Some(
                PendingView {
                    request: RequestView::Git(log_spec(b.name, PREVIEW_COMMITS as nat)),
                    next: ContinuationView::ShowLog,
                },
            ),
            ..s
        },
        None => AppView { preview: seq![], ..s },
    }
}

/// Starts reloading the branches.
pub open spec fn start_refresh(s: AppView) -> AppView {
    AppView {
        pending: Some(
            PendingView {
                request: RequestView::Git(merged_branches_spec()),
                next: ContinuationView::ReadMerged,
            },
        ),
        ..s
    }
}

/// Keeps the selection inside the filtered list.
pub open spec fn clamp_selection(s: AppView) -> AppView {
    let n = filtered(s.branches, s.filter).len();
    if s.selected >= n {
        AppView { selected: if n == 0 { 0 } else { n - 1 }, ..s }
    } else {
        s
    }
}

/// `s` with a request pending.
pub open spec fn ask(s: AppView, request: RequestView, next: ContinuationView) -> AppView {
    AppView { pending: Some(PendingView { request, next }), ..s }
}

/// Leaves the confirmation prompt.
pub open spec fn cancel_confirm(s: AppView) -> AppView {
    AppView { confirm: None, input_mode: InputMode::Normal, status: None, ..s }
}

/// Leaves a name prompt.
pub open spec fn cancel_input(s: AppView) -> AppView {
    AppView { input_mode: InputMode::Normal, input_buf: seq![], status: None, ..s }
}

/// `s` without its last character, as `String::pop` leaves it.
pub open spec fn pop_char(s: Seq<char>) -> Seq<char> {
    if s.len() > 0 {
        s.drop_last()
    } else {
        s
    }
}

/// The selection moves down one place, wrapping around.
pub open spec fn move_down(s: AppView) -> AppView {
    let n = filtered(s.branches, s.filter).len();
    if n > 0 {
        show_preview(AppView { selected: (s.selected + 1) % (n as int), ..s })
    } else {
        s
    }
}

/// The selection moves up one place, wrapping around.
pub open spec fn move_up(s: AppView) -> AppView {
    let n = filtered(s.branches, s.filter).len();
    if n > 0 {
        show_preview(AppView { selected: (s.selected + n - 1) % (n as int), ..s })
    } else {
        s
    }
}

/// Enter: check out the selected branch unless it is the current one.
pub open spec fn switch_action(s: AppView) -> AppView {
    match selected_of(s) {
        Some(b) => if b.is_current {
            s
        } else {
            ask(s, RequestView::Git(switch_spec(b.name)), ContinuationView::FinishSwitch)
        },
        None => s,
    }
}

/// `y`: copy the name of the selected branch.
pub open spec fn copy_action(s: AppView) -> AppView {
    match selected_of(s) {
        Some(b) => ask(s, RequestView::Copy(b.name), ContinuationView::FinishCopy),
        None => s,
    }
}

/// The prompt for deleting `name`.
pub open spec fn delete_prompt(name: Seq<char>, is_merged: bool) -> Seq<char> {
    if is_merged {
        "Delete branch '"@ + name + "'? [y/n]"@
    } else {
        "⚠ '"@ + name + "' is not fully merged. [d] force delete  [n] cancel"@
    }
}

/// `d`: ask to confirm the deletion of the selected branch; the current
/// branch is refused.
pub open spec fn delete_action(s: AppView) -> AppView {
    match selected_of(s) {
        Some(b) => if b.is_current {
            AppView { status: Some("Cannot delete current branch"@), ..s }
        } else {
            AppView {
                status: Some(delete_prompt(b.name, b.is_merged)),
                confirm: Some(
                    ConfirmView::Delete { branch: b.name, is_merged: b.is_merged, force: false },
                ),
                input_mode: InputMode::Confirm,
                ..s
            }
        },
        None => s,
    }
}

/// A key in `Normal` mode (the status line is already cleared).
pub open spec fn normal_key(s: AppView, key: Key) -> AppView {
    match key {
        Key::Esc => AppView { should_quit: true, ..s },
        Key::Down => move_down(s),
        Key::Up => move_up(s),
        Key::Enter => switch_action(s),
        Key::Char(c) => if c == 'q' {
            AppView { should_quit: true, ..s }
        } else if c == 'j' {
            move_down(s)
        } else if c == 'k' {
            move_up(s)
        } else if c == 'y' {
            copy_action(s)
        } else if c == 'd' {
            delete_action(s)
        } else if c == 'n' {
            AppView {
                input_mode: InputMode::Create,
                input_buf: seq![],
                status: Some("Create from '"@ + current_name(s.branches) + "':"@),
                ..s
            }
        } else if c == 'r' {
            match selected_of(s) {
                Some(b) => AppView {
                    input_buf: b.name,
                    input_mode: InputMode::Rename,
                    status: Some("Rename to:"@),
                    ..s
                },
                None => s,
            }
        } else if c == '/' {
            AppView {
                input_mode: InputMode::Filter,
                filter: seq![],
                status: Some("Filter:"@),
                ..s
            }
        } else {
            s
        },
        _ => s,
    }
}

/// A key in `Filter` mode.
pub open spec fn filter_key(s: AppView, key: Key) -> AppView {
    match key {
        Key::Esc => show_preview(
            select_current(
                AppView {
                    input_mode: InputMode::Normal,
                    filter: seq![],
                    selected: 0,
                    status: None,
                    ..s
                },
            ),
        ),
        Key::Enter => AppView { input_mode: InputMode::Normal, status: None, ..s },
        Key::Backspace => show_preview(AppView { filter: pop_char(s.filter), selected: 0, ..s }),
        Key::Char(c) => show_preview(AppView { filter: s.filter.push(c), selected: 0, ..s }),
        _ => s,
    }
}

/// A key in `Confirm` mode: a merged branch (or a forced deletion) is
/// deleted on `y`; an unmerged one needs `d` first, which forces it.
pub open spec fn confirm_key(s: AppView, key: Key) -> AppView {
    match s.confirm {
        None => s,
        Some(ConfirmView::Delete { branch, is_merged, force }) => if is_merged || force {
            if key == Key::Char('y') {
                ask(
                    s,
                    RequestView::Git(delete_spec(branch, force)),
                    ContinuationView::FinishDelete { branch },
                )
            } else if key == Key::Char('n') || key == Key::Esc {
                cancel_confirm(s)
            } else {
                s
            }
        } else {
            if key == Key::Char('d') {
                AppView {
                    confirm: Some(ConfirmView::Delete { branch, is_merged: false, force: true }),
                    status: Some("Force delete '"@ + branch + "' ? [y] confirm  [n] cancel"@),
                    ..s
                }
            } else if key == Key::Char('n') || key == Key::Esc {
                cancel_confirm(s)
            } else {
                s
            }
        },
    }
}

/// A key in `Create` mode.
pub open spec fn create_key(s: AppView, key: Key) -> AppView {
    match key {
        Key::Esc => cancel_input(s),
        Key::Enter => {
            let name = trim(s.input_buf);
            let done = AppView { input_mode: InputMode::Normal, input_buf: seq![], ..s };
            if name.len() > 0 {
                ask(
                    done,
                    RequestView::Git(create_spec(name)),
                    ContinuationView::FinishCreate { name },
                )
            } else {
                done
            }
        },
        Key::Backspace => AppView { input_buf: pop_char(s.input_buf), ..s },
        Key::Char(c) => AppView { input_buf: s.input_buf.push(c), ..s },
        _ => s,
    }
}

/// A key in `Rename` mode.
pub open spec fn rename_key(s: AppView, key: Key) -> AppView {
    match key {
        Key::Esc => cancel_input(s),
        Key::Enter => {
            let new = trim(s.input_buf);
            let done = AppView { input_mode: InputMode::Normal, input_buf: seq![], ..s };
            match selected_of(s) {
                Some(b) => if new.len() > 0 && new != b.name {
                    ask(
                        done,
                        RequestView::Git(rename_spec(b.name, new)),
                        ContinuationView::FinishRename { old: b.name, new },
                    )
                } else {
                    done
                },
                None => done,
            }
        },
        Key::Backspace => AppView { input_buf: pop_char(s.input_buf), ..s },
        Key::Char(c) => AppView { input_buf: s.input_buf.push(c), ..s },
        _ => s,
    }
}

/// What a key does.
pub open spec fn after_key(s: AppView, key: Key) -> AppView {
    match s.input_mode {
        InputMode::Normal => normal_key(AppView { status: None, ..s }, key),
        InputMode::Filter => filter_key(s, key),
        InputMode::Confirm => confirm_key(s, key),
        InputMode::Create => create_key(s, key),
        InputMode::Rename => rename_key(s, key),
    }
}

/// The status line after an operation: `done` on success, else the error.
pub open spec fn report(res: Result<Seq<char>, Seq<char>>, done: Seq<char>) -> Seq<char> {
    match res {
        Ok(_) => done,
        Err(m) => m,
    }
}

/// What the outcome `res` of a git request does; `out` is what git produced.
pub open spec fn after_git(
    s: AppView,
    next: ContinuationView,
    res: Result<Seq<char>, Seq<char>>,
    out: Option<OutputView>,
) -> AppView {
    match next {
        ContinuationView::ShowLog => AppView {
            preview: match res {
                Ok(o) => lines(o),
                Err(_) => seq![],
            },
            ..s
        },
        ContinuationView::FinishSwitch => match res {
            Ok(_) => AppView { should_quit: true, ..s },
            Err(m) => AppView { status: Some(m), ..s },
        },
        ContinuationView::FinishCopy => s,
        ContinuationView::FinishDelete { branch } => start_refresh(
            AppView {
                status: Some(report(res, "Deleted branch '"@ + branch + "'"@)),
                confirm: None,
                input_mode: InputMode::Normal,
                ..s
            },
        ),
        ContinuationView::FinishCreate { name } => start_refresh(
            AppView { status: Some(report(res, "Created branch '"@ + name + "'"@)), ..s },
        ),
        ContinuationView::FinishRename { old, new } => start_refresh(
            AppView {
                status: Some(report(res, "Renamed '"@ + old + "' → '"@ + new + "'"@)),
                ..s
            },
        ),
        ContinuationView::ReadMerged => ask(
            s,
            RequestView::Git(branches_spec()),
            ContinuationView::ReadBranches { merged: out },
        ),
        ContinuationView::ReadBranches { merged } => match listed_branches(merged, out) {
            Ok(bs) => show_preview(clamp_selection(AppView { branches: bs, ..s })),
            Err(_) => s,
        },
    }
}

/// What the outcome of the pending request does; an outcome of the other
/// kind, or one that nothing waits for, changes nothing.
pub open spec fn after_reply(s: AppView, reply: ReplyView) -> AppView {
    match s.pending {
        None => s,
        Some(p) => {
            let idle = AppView { pending: None, ..s };
            match (p.request, reply) {
                (RequestView::Git(cmd), ReplyView::Git(out)) => after_git(
                    idle,
                    p.next,
                    command_result(cmd, out),
                    out,
                ),
                (RequestView::Copy(name), ReplyView::Copied(r)) => AppView {
                    status: Some(
                        match r {
                            Ok(_) => "Copied '"@ + name + "'"@,
                            Err(m) => m,
                        },
                    ),
                    ..idle
                },
                _ => s,
            }
        },
    }
}

/// The state at start-up over the branches `bs`, before the current branch
/// is selected and its commits asked for.
pub open spec fn initial(bs: Seq<BranchView>) -> AppView {
    AppView {
        branches: bs,
        selected: 0,
        input_mode: InputMode::Normal,
        filter: seq![],
        input_buf: seq![],
        confirm: None,
        preview: seq![],
        status: None,
        should_quit: false,
        pending: None,
    }
}

/// Moving the selection by `key` stays within `usize` arithmetic (the move
/// adds one, or the list length less one, to the position).
pub open spec fn move_fits(s: AppView, key: Key) -> bool {
    let n = filtered(s.branches, s.filter).len();
    s.input_mode == InputMode::Normal && n > 0 ==> {
        &&& (key == Key::Down || key == Key::Char('j')) ==> s.selected + 1 <= usize::MAX
        &&& (key == Key::Up || key == Key::Char('k')) ==> s.selected + n - 1 <= usize::MAX
    }
}

/// The confirmation prompt is open exactly when an action awaits confirmation.
pub open spec fn confirm_ok(s: AppView) -> bool {
    (s.input_mode == InputMode::Confirm) == (s.confirm is Some)
}

/// The selection lies inside the filtered list (it is 0 when that is empty).
pub open spec fn selection_ok(s: AppView) -> bool {
    let n = filtered(s.branches, s.filter).len();
    &&& 0 <= s.selected
    &&& (n == 0 ==> s.selected == 0)
    &&& (n > 0 ==> s.selected < n)
}

/// Positions as integers.
pub open spec fn as_ints(v: Seq<usize>) -> Seq<int> {
    v.map_values(|x: usize| x as int)
}

/// The filtered positions are valid, increasing, and exactly those of the
/// branches that pass the filter.
pub proof fn lemma_filtered(bs: Seq<BranchView>, filter: Seq<char>)
    ensures
        filtered(bs, filter).len() <= bs.len(),
        forall|k: int|
            0 <= k < filtered(bs, filter).len() ==> 0 <= #[trigger] filtered(bs, filter)[k]
                < bs.len(),
        forall|k: int|
            0 <= k < filtered(bs, filter).len() ==> matches_filter(
                bs[#[trigger] filtered(bs, filter)[k]].name,
                filter,
            ),
        forall|k1: int, k2: int|
            0 <= k1 < k2 < filtered(bs, filter).len() ==> #[trigger] filtered(bs, filter)[k1]
                < #[trigger] filtered(bs, filter)[k2],
        forall|i: int|
            0 <= i < bs.len() && matches_filter(#[trigger] bs[i].name, filter) ==> filtered(
                bs,
                filter,
            ).contains(i),
    decreases bs.len(),
{
    if bs.len() > 0 {
        let rest = bs.drop_last();
        lemma_filtered(rest, filter);
        assert forall|i: int|
            0 <= i < bs.len() && matches_filter(#[trigger] bs[i].name, filter) implies filtered(
                bs,
                filter,
            ).contains(i) by {
            if i < bs.len() - 1 {
                assert(rest[i] == bs[i]);
                let k = choose|k: int| 0 <= k < filtered(rest, filter).len() && filtered(
                    rest,
                    filter,
                )[k] == i;
                assert(filtered(bs, filter)[k] == i);
            } else {
                assert(filtered(bs, filter).last() == i);
            }
        }
    }
}

/// With an empty filter every branch passes, in order.
pub proof fn lemma_filtered_all(bs: Seq<BranchView>)
    ensures
        filtered(bs, seq![]) == Seq::new(bs.len(), |i: int| i),
    decreases bs.len(),
{
    if bs.len() > 0 {
        lemma_filtered_all(bs.drop_last());
        assert(filtered(bs, seq![]) =~= Seq::new(bs.len(), |i: int| i));
    }
}

} // verus!
