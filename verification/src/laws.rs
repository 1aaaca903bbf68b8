//! Properties of the switcher that span its steps, proved over the models
//! that `App::handle_key`, `App::resume` and `App::new` are held to.

use vstd::prelude::*;
use crate::app::{
    AppView, ConfirmView, ContinuationView, InputMode, Key, PendingView, ReplyView, RequestView,
};
use crate::model::{
    after_key, after_reply, clamp_selection, confirm_ok, current_name, filtered, first_current,
    initial, lemma_filtered, lemma_filtered_all, matches_filter, move_down, move_up,
    select_current, selected_of, selection_ok, show_preview, PREVIEW_COMMITS,
};
use crate::text::{
    is_infix, is_white_space, lemma_infix_transitive, lines, lowercase, trim, trim_end, trim_start,
};
use crate::git::{
    branch_name, branches_of, create_spec, delete_spec, log_spec, non_blank, rename_spec,
    switch_spec, BranchView,
    OutputView,
};

verus! {

proof fn lemma_first_current(bs: Seq<BranchView>, f: Seq<int>, i: int)
    requires
        0 <= i,
    ensures
        first_current(bs, f, i) matches Some(j) ==> i <= j < f.len(),
    decreases f.len() - i,
{
    if i < f.len() && !bs[f[i]].is_current {
        lemma_first_current(bs, f, i + 1);
    }
}

proof fn lemma_select_current(s: AppView)
    requires
        selection_ok(s),
    ensures
        selection_ok(select_current(s)),
{
    lemma_first_current(s.branches, filtered(s.branches, s.filter), 0);
}

proof fn lemma_show_preview(s: AppView)
    ensures
        show_preview(s).branches == s.branches,
        show_preview(s).filter == s.filter,
        show_preview(s).selected == s.selected,
{
}

/// Every key leaves the selection inside the filtered list (or at 0 when
/// the list is empty).
pub proof fn law_key_keeps_selection(s: AppView, key: Key)
    requires
        selection_ok(s),
    ensures
        selection_ok(after_key(s, key)),
{
    lemma_filtered(s.branches, s.filter);
    lemma_filtered(s.branches, seq![]);
    lemma_filtered_all(s.branches);
    let n = filtered(s.branches, s.filter).len();
    if n > 0 {
        assert(0 <= (s.selected + 1) % (n as int) < n);
        assert(0 <= (s.selected + n - 1) % (n as int) < n);
    }
    let cleared = AppView { input_mode: InputMode::Normal, filter: seq![], selected: 0, status: None, ..s };
    lemma_filtered(cleared.branches, cleared.filter);
    lemma_select_current(cleared);
}

/// Every outcome leaves the selection inside the filtered list.
pub proof fn law_reply_keeps_selection(s: AppView, reply: ReplyView)
    requires
        selection_ok(s),
    ensures
        selection_ok(after_reply(s, reply)),
{
    if let Some(p) = s.pending {
        if let (RequestView::Git(cmd), ReplyView::Git(out)) = (p.request, reply) {
            if let ContinuationView::ReadBranches { merged } = p.next {
                if let Ok(bs) = crate::git::listed_branches(merged, out) {
                    let t = AppView { branches: bs, pending: None, ..s };
                    lemma_show_preview(clamp_selection(t));
                }
            }
        }
    }
}

/// The state at start-up has a valid selection.
pub proof fn law_initial_selection(bs: Seq<BranchView>)
    ensures
        selection_ok(show_preview(select_current(initial(bs)))),
{
    lemma_select_current(initial(bs));
}

/// Moving down and then up (with `j`/`k` or the arrow keys) comes back to
/// the same branch, whatever the commit preview in between brought.
pub proof fn law_down_up_returns(s: AppView, down: Key, up: Key, reply: ReplyView)
    requires
        selection_ok(s),
        s.input_mode == InputMode::Normal,
        s.pending is None,
        down == Key::Down || down == Key::Char('j'),
        up == Key::Up || up == Key::Char('k'),
    ensures
        after_key(after_reply(after_key(s, down), reply), up).selected == s.selected,
{
    let n = filtered(s.branches, s.filter).len();
    lemma_filtered(s.branches, s.filter);
    let s1 = after_key(s, down);
    let s2 = after_reply(s1, reply);
    assert(s2.branches == s.branches && s2.filter == s.filter && s2.input_mode == InputMode::Normal);
    if n > 0 {
        assert(s2.selected == s1.selected);
        let m = n as int;
        let t = (s.selected + 1) % m;
        assert(0 <= t < m);
        assert((t + m - 1) % m == s.selected) by (nonlinear_arith)
            requires
                t == (s.selected + 1) % m,
                0 <= s.selected < m,
        {
            if s.selected + 1 == m {
                assert(t == 0);
            } else {
                assert(t == s.selected + 1);
            }
        }
    }
}

/// A confirmation that forces the deletion.
pub open spec fn is_forced(c: Option<ConfirmView>) -> bool {
    c matches Some(ConfirmView::Delete { force, .. }) && force
}

/// While an unmerged branch awaits confirmation, `y` does nothing: only `d`
/// (which forces the deletion), `n` or `Esc` answer.
pub proof fn law_unmerged_ignores_y(s: AppView, branch: Seq<char>)
    requires
        s.input_mode == InputMode::Confirm,
        s.confirm == Some(ConfirmView::Delete { branch, is_merged: false, force: false }),
    ensures
        after_key(s, Key::Char('y')) == s,
{
}

/// A deletion is only asked of git by `y` at a confirmation prompt, for the
/// branch of that prompt, and with `-D` exactly when the deletion was forced.
pub proof fn law_delete_needs_confirmation(s: AppView, key: Key)
    requires
        s.pending is None,
        after_key(s, key).pending matches Some(p) && p.next is FinishDelete,
    ensures
        s.input_mode == InputMode::Confirm,
        key == Key::Char('y'),
        s.confirm matches Some(ConfirmView::Delete { branch, is_merged, force }) && (is_merged
            || force) && after_key(s, key).pending == Some(
            PendingView {
                request: RequestView::Git(delete_spec(branch, force)),
                next: ContinuationView::FinishDelete { branch },
            },
        ),
{
}

/// Only `d` at the prompt of an unmerged branch forces a deletion.
pub proof fn law_force_only_by_d(s: AppView, key: Key)
    requires
        !is_forced(s.confirm),
        is_forced(after_key(s, key).confirm),
    ensures
        s.input_mode == InputMode::Confirm,
        key == Key::Char('d'),
        s.confirm matches Some(ConfirmView::Delete { is_merged, .. }) && !is_merged,
{
}

/// No outcome forces a deletion.
pub proof fn law_reply_never_forces(s: AppView, reply: ReplyView)
    requires
        !is_forced(s.confirm),
    ensures
        !is_forced(after_reply(s, reply).confirm),
{
}

/// The current branch cannot be deleted: `d` on it only says so.
pub proof fn law_current_not_deletable(s: AppView)
    requires
        s.input_mode == InputMode::Normal,
        selected_of(s) matches Some(b) && b.is_current,
    ensures
        after_key(s, Key::Char('d')) == (AppView {
            status: Some("Cannot delete current branch"@),
            ..s
        }),
{
}

/// A deletion prompt is always about the selected branch, which is not the
/// current one, and is never forced at first.
pub proof fn law_delete_prompt(s: AppView)
    requires
        s.input_mode == InputMode::Normal,
        after_key(s, Key::Char('d')).input_mode == InputMode::Confirm,
    ensures
        selected_of(s) matches Some(b) && !b.is_current && after_key(
            s,
            Key::Char('d'),
        ).confirm == Some(
            ConfirmView::Delete { branch: b.name, is_merged: b.is_merged, force: false },
        ),
{
}

/// Enter on the current branch does nothing (but clear the status line).
pub proof fn law_switch_to_current_is_noop(s: AppView)
    requires
        s.input_mode == InputMode::Normal,
        selected_of(s) matches Some(b) && b.is_current,
    ensures
        after_key(s, Key::Enter) == (AppView { status: None, ..s }),
{
}

/// Enter on another branch asks git to switch to it.
pub proof fn law_switch_asks_git(s: AppView)
    requires
        s.input_mode == InputMode::Normal,
        selected_of(s) matches Some(b) && !b.is_current,
    ensures
        selected_of(s) matches Some(b) && after_key(s, Key::Enter).pending == Some(
            PendingView {
                request: RequestView::Git(switch_spec(b.name)),
                next: ContinuationView::FinishSwitch,
            },
        ),
{
}

/// A successful switch ends the program; a failed one keeps it running and
/// says why.
pub proof fn law_switch_outcome(s: AppView, name: Seq<char>, out: OutputView)
    requires
        !s.should_quit,
        s.pending == Some(
            PendingView {
                request: RequestView::Git(switch_spec(name)),
                next: ContinuationView::FinishSwitch,
            },
        ),
    ensures
        after_reply(s, ReplyView::Git(Some(out))).should_quit == out.success,
        !out.success ==> after_reply(s, ReplyView::Git(Some(out))).status == Some(
            "Could not switch to '"@ + name + "'. Do you have uncommitted changes?"@,
        ),
{
}

/// `Esc` while filtering clears the filter, so every branch shows again.
pub proof fn law_filter_escape_shows_all(s: AppView)
    requires
        s.input_mode == InputMode::Filter,
    ensures
        after_key(s, Key::Esc).input_mode == InputMode::Normal,
        after_key(s, Key::Esc).filter == Seq::<char>::empty(),
        filtered(after_key(s, Key::Esc).branches, after_key(s, Key::Esc).filter) == Seq::new(
            s.branches.len(),
            |i: int| i,
        ),
{
    lemma_filtered_all(s.branches);
}

/// `Enter` while filtering keeps the filter active.
pub proof fn law_filter_enter_keeps_filter(s: AppView)
    requires
        s.input_mode == InputMode::Filter,
    ensures
        after_key(s, Key::Enter).input_mode == InputMode::Normal,
        after_key(s, Key::Enter).filter == s.filter,
        after_key(s, Key::Enter).branches == s.branches,
{
}

/// Typing while filtering extends the filter and selects the top match.
pub proof fn law_filter_typing(s: AppView, c: char)
    requires
        s.input_mode == InputMode::Filter,
    ensures
        after_key(s, Key::Char(c)).filter == s.filter.push(c),
        after_key(s, Key::Char(c)).selected == 0,
        after_key(s, Key::Char(c)).input_mode == InputMode::Filter,
{
}

/// `q` and `Esc` quit from the branch list.
pub proof fn law_quit(s: AppView, key: Key)
    requires
        s.input_mode == InputMode::Normal,
        key == Key::Char('q') || key == Key::Esc,
    ensures
        after_key(s, key).should_quit,
{
}

/// `n` opens the name prompt, saying which branch the new one starts from.
pub proof fn law_create_prompt_names_source(s: AppView)
    requires
        s.input_mode == InputMode::Normal,
    ensures
        after_key(s, Key::Char('n')).input_mode == InputMode::Create,
        after_key(s, Key::Char('n')).input_buf == Seq::<char>::empty(),
        after_key(s, Key::Char('n')).status == Some(
            "Create from '"@ + current_name(s.branches) + "':"@,
        ),
{
}

/// `r` opens the rename prompt filled with the selected branch's name.
pub proof fn law_rename_prefills(s: AppView)
    requires
        s.input_mode == InputMode::Normal,
        selected_of(s) is Some,
    ensures
        after_key(s, Key::Char('r')).input_mode == InputMode::Rename,
        after_key(s, Key::Char('r')).input_buf == selected_of(s).unwrap().name,
{
}

/// Cancelling a prompt returns to the branch list without asking anything
/// of git.
pub proof fn law_cancel(s: AppView, key: Key)
    requires
        s.pending is None,
        (s.input_mode == InputMode::Create || s.input_mode == InputMode::Rename) && key
            == Key::Esc || s.input_mode == InputMode::Confirm && s.confirm is Some && (key
            == Key::Esc || key == Key::Char('n')),
    ensures
        after_key(s, key).input_mode == InputMode::Normal,
        after_key(s, key).pending is None,
        after_key(s, key).status is None,
        after_key(s, key).confirm == (if s.input_mode == InputMode::Confirm {
            None
        } else {
            s.confirm
        }),
{
}

/// Moving through the list asks for the recent commits of the branch that
/// becomes selected.
pub proof fn law_navigation_previews_selection(s: AppView, key: Key)
    requires
        selection_ok(s),
        s.input_mode == InputMode::Normal,
        filtered(s.branches, s.filter).len() > 0,
        key == Key::Down || key == Key::Char('j') || key == Key::Up || key == Key::Char('k'),
    ensures
        selected_of(after_key(s, key)) matches Some(b) && after_key(s, key).pending == Some(
            PendingView {
                request: RequestView::Git(log_spec(b.name, PREVIEW_COMMITS as nat)),
                next: ContinuationView::ShowLog,
            },
        ),
{
    let n = filtered(s.branches, s.filter).len();
    assert(0 <= (s.selected + 1) % (n as int) < n);
    assert(0 <= (s.selected + n - 1) % (n as int) < n);
}

/// A merged branch is deleted with `d` then `y`, which runs `git branch -d`.
pub proof fn law_merged_delete_flow(s: AppView)
    requires
        s.input_mode == InputMode::Normal,
        s.pending is None,
        selected_of(s) matches Some(b) && !b.is_current && b.is_merged,
    ensures
        selected_of(s) matches Some(b) && after_key(
            after_key(s, Key::Char('d')),
            Key::Char('y'),
        ).pending == Some(
            PendingView {
                request: RequestView::Git(delete_spec(b.name, false)),
                next: ContinuationView::FinishDelete { branch: b.name },
            },
        ),
{
}

/// An unmerged branch takes `d`, `d` again, then `y`, which runs
/// `git branch -D`.
pub proof fn law_unmerged_delete_flow(s: AppView)
    requires
        s.input_mode == InputMode::Normal,
        s.pending is None,
        selected_of(s) matches Some(b) && !b.is_current && !b.is_merged,
    ensures
        after_key(after_key(s, Key::Char('d')), Key::Char('y')).pending is None,
        selected_of(s) matches Some(b) && after_key(
            after_key(after_key(s, Key::Char('d')), Key::Char('d')),
            Key::Char('y'),
        ).pending == Some(
            PendingView {
                request: RequestView::Git(delete_spec(b.name, true)),
                next: ContinuationView::FinishDelete { branch: b.name },
            },
        ),
{
}

/// `y` copies the selected branch's name, and a successful copy says so.
pub proof fn law_copy(s: AppView)
    requires
        s.input_mode == InputMode::Normal,
        selected_of(s) is Some,
    ensures
        after_key(s, Key::Char('y')).pending == Some(
            PendingView {
                request: RequestView::Copy(selected_of(s).unwrap().name),
                next: ContinuationView::FinishCopy,
            },
        ),
        after_reply(after_key(s, Key::Char('y')), ReplyView::Copied(Ok(()))).status == Some(
            "Copied '"@ + selected_of(s).unwrap().name + "'"@,
        ),
{
}

/// Moving down and then up returns to the same position and the same
/// branch, also across the wrap from the last branch to the first.
pub proof fn law_up_undoes_down(s: AppView)
    requires
        selection_ok(s),
    ensures
        move_up(move_down(s)).selected == s.selected,
        selected_of(move_up(move_down(s))) == selected_of(s),
{
    let n = filtered(s.branches, s.filter).len();
    if n > 0 {
        let m = n as int;
        let t = (s.selected + 1) % m;
        assert(0 <= t < m);
        assert((t + m - 1) % m == s.selected) by (nonlinear_arith)
            requires
                t == (s.selected + 1) % m,
                0 <= s.selected < m,
        {
            if s.selected + 1 == m {
                assert(t == 0);
            } else {
                assert(t == s.selected + 1);
            }
        }
    }
}

/// Every key keeps the confirmation prompt open exactly while an action
/// awaits confirmation.
pub proof fn law_key_keeps_confirm(s: AppView, key: Key)
    requires
        confirm_ok(s),
    ensures
        confirm_ok(after_key(s, key)),
{
}

/// Every outcome keeps the confirmation prompt open exactly while an action
/// awaits confirmation.
pub proof fn law_reply_keeps_confirm(s: AppView, reply: ReplyView)
    requires
        confirm_ok(s),
    ensures
        confirm_ok(after_reply(s, reply)),
{
}

/// The state at start-up has no prompt open.
pub proof fn law_initial_confirm(bs: Seq<BranchView>)
    ensures
        confirm_ok(show_preview(select_current(initial(bs)))),
{
}

/// A narrower filter never shows more branches: when the lowercased `wide`
/// occurs in the lowercased `narrow`, every branch that `narrow` shows,
/// `wide` shows too. (`to_lowercase` states that only the empty string
/// lowercases to the empty string.)
pub proof fn law_narrower_filter(bs: Seq<BranchView>, wide: Seq<char>, narrow: Seq<char>)
    requires
        is_infix(lowercase(wide), lowercase(narrow)),
        lowercase(wide).len() == 0 <==> wide.len() == 0,
        lowercase(narrow).len() == 0 <==> narrow.len() == 0,
    ensures
        forall|i: int| #[trigger]
            filtered(bs, narrow).contains(i) ==> filtered(bs, wide).contains(i),
{
    lemma_filtered(bs, narrow);
    lemma_filtered(bs, wide);
    assert forall|i: int| #[trigger] filtered(bs, narrow).contains(i) implies filtered(
        bs,
        wide,
    ).contains(i) by {
        let k = choose|k: int| 0 <= k < filtered(bs, narrow).len() && filtered(bs, narrow)[k] == i;
        assert(matches_filter(bs[filtered(bs, narrow)[k]].name, narrow));
        if wide.len() > 0 {
            assert(narrow.len() > 0);
            lemma_infix_transitive(lowercase(wide), lowercase(narrow), lowercase(bs[i].name));
        }
        assert(matches_filter(bs[i].name, wide));
    }
}

// ---------------------------------------------------------------------------
// What the operations are for, stated on characters, positions and counts.
// ---------------------------------------------------------------------------

/// `needle` stands at position `i` of `hay`, one character after another.
pub open spec fn occurs_at(needle: Seq<char>, hay: Seq<char>, i: int) -> bool {
    &&& 0 <= i
    &&& i + needle.len() <= hay.len()
    &&& forall|k: int| 0 <= k < needle.len() ==> #[trigger] hay[i + k] == needle[k]
}

/// The filter shows a branch name: it is empty, or, both lowercased, it
/// stands at some position of the name as one contiguous run.
pub open spec fn shown_by(name: Seq<char>, filter: Seq<char>) -> bool {
    filter.len() == 0 || exists|i: int| occurs_at(lowercase(filter), lowercase(name), i)
}

/// How many of the first `n` branches the filter shows.
pub open spec fn count_shown(bs: Seq<BranchView>, filter: Seq<char>, n: int) -> nat
    decreases n,
{
    if n <= 0 {
        0
    } else {
        count_shown(bs, filter, n - 1) + if shown_by(bs[n - 1].name, filter) {
            1nat
        } else {
            0nat
        }
    }
}

/// Substring search finds a contiguous run: `contains(hay, needle)` holds
/// exactly when `needle` stands at some position of `hay` (so "fa" is not
/// found in "feature-a").
pub proof fn law_contains_is_contiguous(needle: Seq<char>, hay: Seq<char>)
    ensures
        is_infix(needle, hay) <==> exists|i: int| occurs_at(needle, hay, i),
{
    if is_infix(needle, hay) {
        let i = choose|i: int|
            0 <= i && i + needle.len() <= hay.len() && #[trigger] hay.subrange(i, i + needle.len())
                == needle;
        assert forall|k: int| 0 <= k < needle.len() implies #[trigger] hay[i + k] == needle[k] by {
            assert(hay.subrange(i, i + needle.len())[k] == hay[i + k]);
        }
        assert(occurs_at(needle, hay, i));
    }
    if exists|i: int| occurs_at(needle, hay, i) {
        let i = choose|i: int| occurs_at(needle, hay, i);
        assert forall|k: int| 0 <= k < needle.len() implies #[trigger] hay.subrange(
            i,
            i + needle.len(),
        )[k] == needle[k] by {
            assert(hay[i + k] == needle[k]);
        }
        assert(hay.subrange(i, i + needle.len()) =~= needle);
    }
}

/// A branch passes the filter exactly when `shown_by` holds of its name.
pub proof fn law_matches_filter(name: Seq<char>, filter: Seq<char>)
    ensures
        matches_filter(name, filter) <==> shown_by(name, filter),
{
    law_contains_is_contiguous(lowercase(filter), lowercase(name));
}

proof fn lemma_count_prefix(bs: Seq<BranchView>, r: Seq<BranchView>, f: Seq<char>, i: int)
    requires
        0 <= i <= r.len() <= bs.len(),
        forall|j: int| 0 <= j < r.len() ==> r[j] == bs[j],
    ensures
        count_shown(r, f, i) == count_shown(bs, f, i),
    decreases i,
{
    if i > 0 {
        lemma_count_prefix(bs, r, f, i - 1);
    }
}

proof fn lemma_count_mono(bs: Seq<BranchView>, f: Seq<char>, i: int, n: int)
    requires
        0 <= i <= n,
    ensures
        count_shown(bs, f, i) <= count_shown(bs, f, n),
    decreases n - i,
{
    if i < n {
        lemma_count_mono(bs, f, i, n - 1);
    }
}

/// The filtered list holds, in order, the positions of the shown branches:
/// its length is their number, and the shown branch at position `i` is entry
/// number `count_shown(bs, filter, i)` of it.
pub proof fn law_filtered_positions(bs: Seq<BranchView>, filter: Seq<char>)
    ensures
        filtered(bs, filter).len() == count_shown(bs, filter, bs.len() as int),
        forall|i: int|
            0 <= i < bs.len() && shown_by(#[trigger] bs[i].name, filter) ==> filtered(
                bs,
                filter,
            )[count_shown(bs, filter, i) as int] == i,
        forall|i: int| #[trigger]
            filtered(bs, filter).contains(i) <==> 0 <= i < bs.len() && shown_by(
                bs[i].name,
                filter,
            ),
    decreases bs.len(),
{
    lemma_filtered(bs, filter);
    assert forall|i: int| 0 <= i < bs.len() implies (matches_filter(bs[i].name, filter)
        <==> shown_by(#[trigger] bs[i].name, filter)) by {
        law_matches_filter(bs[i].name, filter);
    }
    if bs.len() > 0 {
        let r = bs.drop_last();
        let n = bs.len() as int;
        law_filtered_positions(r, filter);
        lemma_count_prefix(bs, r, filter, n - 1);
        assert forall|i: int|
            0 <= i < bs.len() && shown_by(#[trigger] bs[i].name, filter) implies filtered(
            bs,
            filter,
        )[count_shown(bs, filter, i) as int] == i by {
            if i < n - 1 {
                lemma_count_prefix(bs, r, filter, i);
                lemma_count_prefix(bs, r, filter, i + 1);
                assert(r[i] == bs[i]);
                lemma_count_mono(r, filter, i + 1, n - 1);
            }
        }
        assert forall|i: int| #[trigger]
            filtered(bs, filter).contains(i) implies 0 <= i < bs.len() && shown_by(
            bs[i].name,
            filter,
        ) by {
            let k = choose|k: int|
                0 <= k < filtered(bs, filter).len() && filtered(bs, filter)[k] == i;
            assert(matches_filter(bs[filtered(bs, filter)[k]].name, filter));
        }
    }
}

/// The selected branch is the one in the selected row of the filtered list:
/// the branch at position `i` is selected exactly when the filter shows it
/// and shows `selected` branches before it; nothing is selected when the
/// filter shows no more than `selected` branches.
pub proof fn law_selected_is_row(s: AppView)
    ensures
        forall|i: int|
            0 <= i < s.branches.len() && shown_by(#[trigger] s.branches[i].name, s.filter)
                && count_shown(s.branches, s.filter, i) == s.selected ==> selected_of(s) == Some(
                s.branches[i],
            ),
        selected_of(s) is None <==> (s.selected < 0 || s.selected >= count_shown(
            s.branches,
            s.filter,
            s.branches.len() as int,
        )),
        selected_of(s) matches Some(b) ==> shown_by(b.name, s.filter),
{
    law_filtered_positions(s.branches, s.filter);
    lemma_filtered(s.branches, s.filter);
    let n = s.branches.len() as int;
    assert forall|i: int|
        0 <= i < s.branches.len() && shown_by(#[trigger] s.branches[i].name, s.filter)
            && count_shown(s.branches, s.filter, i) == s.selected implies selected_of(s) == Some(
        s.branches[i],
    ) by {
        lemma_count_mono(s.branches, s.filter, i + 1, n);
    }
    if let Some(b) = selected_of(s) {
        let f = filtered(s.branches, s.filter);
        assert(f.contains(f[s.selected]));
    }
}

/// Trimming removes exactly the whitespace around the text: the result is a
/// contiguous part of `s` with only whitespace before and after it, and it
/// neither starts nor ends with whitespace.
pub proof fn law_trim(s: Seq<char>)
    ensures
        exists|a: int, b: int|
            {
                &&& 0 <= a <= b <= s.len()
                &&& trim(s) == s.subrange(a, b)
                &&& forall|k: int| 0 <= k < a ==> is_white_space(#[trigger] s[k])
                &&& forall|k: int| b <= k < s.len() ==> is_white_space(#[trigger] s[k])
                &&& a < b ==> !is_white_space(s[a]) && !is_white_space(s[b - 1])
            },
{
    let a = lemma_trim_start(s);
    let t = s.subrange(a, s.len() as int);
    let b = lemma_trim_end(t);
    assert(t.subrange(0, b) =~= s.subrange(a, a + b));
    assert forall|k: int| a + b <= k < s.len() implies is_white_space(#[trigger] s[k]) by {
        assert(t[k - a] == s[k]);
    }
    if 0 < b {
        assert(t[0] == s[a]);
        assert(t[b - 1] == s[a + b - 1]);
        assert(trim_start(s).len() > 0);
    }
    assert(0 <= a <= a + b <= s.len() && trim(s) == s.subrange(a, a + b));
}

proof fn lemma_trim_start(s: Seq<char>) -> (a: int)
    ensures
        0 <= a <= s.len(),
        trim_start(s) == s.subrange(a, s.len() as int),
        forall|k: int| 0 <= k < a ==> is_white_space(#[trigger] s[k]),
        a < s.len() ==> !is_white_space(s[a]),
    decreases s.len(),
{
    if s.len() > 0 && is_white_space(s[0]) {
        let r = s.drop_first();
        let a = lemma_trim_start(r);
        assert(r.subrange(a, r.len() as int) =~= s.subrange(a + 1, s.len() as int));
        assert forall|k: int| 0 <= k < a + 1 implies is_white_space(#[trigger] s[k]) by {
            if k > 0 {
                assert(r[k - 1] == s[k]);
            }
        }
        if a + 1 < s.len() {
            assert(r[a] == s[a + 1]);
        }
        a + 1
    } else {
        assert(s.subrange(0, s.len() as int) =~= s);
        0
    }
}

proof fn lemma_trim_end(s: Seq<char>) -> (b: int)
    ensures
        0 <= b <= s.len(),
        trim_end(s) == s.subrange(0, b),
        forall|k: int| b <= k < s.len() ==> is_white_space(#[trigger] s[k]),
        0 < b ==> !is_white_space(s[b - 1]),
    decreases s.len(),
{
    if s.len() > 0 && is_white_space(s.last()) {
        let r = s.drop_last();
        let b = lemma_trim_end(r);
        assert(r.subrange(0, b) =~= s.subrange(0, b));
        assert forall|k: int| b <= k < s.len() implies is_white_space(#[trigger] s[k]) by {
            if k < s.len() - 1 {
                assert(r[k] == s[k]);
            }
        }
        if 0 < b {
            assert(r[b - 1] == s[b - 1]);
        }
        b
    } else {
        assert(s.subrange(0, s.len() as int) =~= s);
        s.len() as int
    }
}

/// Each listed branch comes from a non-blank line of the output: its name is
/// that line trimmed, without the `"* "` marker; it is current exactly when
/// the line starts with `'*'`; and it is merged exactly when its name equals
/// one of the names `git branch --merged` listed (containing one is not enough).
pub proof fn law_parse_marks(output: Seq<char>, merged: Seq<Seq<char>>)
    ensures
        branches_of(output, merged).len() == non_blank(lines(output)).len(),
        forall|k: int|
            0 <= k < branches_of(output, merged).len() ==> {
                let line = non_blank(lines(output))[k];
                let b = #[trigger] branches_of(output, merged)[k];
                &&& b.name == branch_name(line)
                &&& b.is_current == (line.len() > 0 && line[0] == '*')
                &&& b.is_merged == (exists|j: int| 0 <= j < merged.len() && merged[j] == b.name)
            },
{
}

/// Enter in the rename prompt renames the selected branch (the one the prompt
/// was filled with) to the typed name without its surrounding whitespace, by
/// `git branch -m <selected> <new>`; an empty or unchanged name asks nothing.
pub proof fn law_rename_renames_selected(s: AppView)
    requires
        s.input_mode == InputMode::Rename,
    ensures
        selected_of(s) matches Some(b) ==> (trim(s.input_buf).len() > 0 && trim(s.input_buf)
            != b.name ==> (after_key(s, Key::Enter).pending matches Some(p)
            && p.request matches RequestView::Git(c) && c.args == seq![
            "branch"@,
            "-m"@,
            b.name,
            trim(s.input_buf),
        ])),
        (selected_of(s) is None || trim(s.input_buf).len() == 0 || trim(s.input_buf)
            == selected_of(s).unwrap().name) ==> after_key(s, Key::Enter).pending == s.pending,
        after_key(s, Key::Enter).input_mode == InputMode::Normal,
{
}

/// Enter in the create prompt creates a branch named by the typed text
/// without its surrounding whitespace and otherwise unchanged, by
/// `git branch <name>`, and reports it by that name; a blank name asks
/// nothing.
pub proof fn law_create_uses_typed_name(s: AppView, out: OutputView)
    requires
        s.input_mode == InputMode::Create,
        out.success,
    ensures
        trim(s.input_buf).len() > 0 ==> (after_key(s, Key::Enter).pending matches Some(p)
            && p.request matches RequestView::Git(c) && c.args == seq![
            "branch"@,
            trim(s.input_buf),
        ]),
        trim(s.input_buf).len() > 0 ==> after_reply(
            after_key(s, Key::Enter),
            ReplyView::Git(Some(out)),
        ).status == Some("Created branch '"@ + trim(s.input_buf) + "'"@),
        trim(s.input_buf).len() == 0 ==> after_key(s, Key::Enter).pending == s.pending,
{
}

/// The git command lines name exactly the branches they act on, in order:
/// switch checks out `name`; delete removes `name`, with `-D` exactly when
/// forced and `-d` otherwise; create makes `name`; rename turns `old` into
/// `new`.
pub proof fn law_command_lines(name: Seq<char>, old: Seq<char>, new: Seq<char>, force: bool)
    ensures
        switch_spec(name).args.len() == 2 && switch_spec(name).args.last() == name,
        delete_spec(name, force).args.len() == 3 && delete_spec(name, force).args.last() == name,
        (delete_spec(name, force).args[1] == "-D"@) == force,
        (delete_spec(name, force).args[1] == "-d"@) == !force,
        create_spec(name).args.len() == 2 && create_spec(name).args.last() == name,
        rename_spec(old, new).args.len() == 4,
        rename_spec(old, new).args[2] == old && rename_spec(old, new).args[3] == new,
{
    reveal_strlit("-D");
    reveal_strlit("-d");
    assert("-D"@[1] != "-d"@[1]);
}

} // verus!
