//! The branch switcher's state and how it reacts to keys.
//!
//! Whatever needs the outside world (running git, writing the clipboard) is
//! not done here: the state names it in `pending`, the caller performs it and
//! hands the outcome back to `App::resume`, which may name the next request.
//! The caller settles every pending request before passing on the next key.

use vstd::prelude::*;
use crate::git::{
    create_branch, delete_branch, get_log, list_branches, listed_branches, merged_branches_command,
    output_view, rename_branch, switch_branch, Branch, BranchView, CommandView, GitCommand,
    GitOutput, OutputView,
};
use crate::model::{
    after_git, after_key, after_reply, as_ints, clamp_selection, confirm_key, confirm_ok, copy_action,
    create_key, delete_action, filter_key, filtered, first_current, initial, lemma_filtered,
    move_down, move_fits, move_up, normal_key, pop_char, rename_key, report, result_view,
    select_current, selected_of, selection_ok, show_preview, start_refresh, switch_action,
    current_name, PREVIEW_COMMITS,
};
use crate::text::{chars_of, contains, lowercase, to_lowercase, trim};

verus! {

/// What the keys currently do.
#[derive(Clone, Copy, Debug, PartialEq, Eq, Structural)]
pub enum InputMode {
    /// Moving through the list and starting actions.
    Normal,
    /// Typing the filter.
    Filter,
    /// Answering a deletion prompt.
    Confirm,
    /// Typing the name of a new branch.
    Create,
    /// Typing the new name of the selected branch.
    Rename,
}

/// An action that waits for the user's confirmation.
#[derive(Debug, Clone)]
pub enum ConfirmAction {
    Delete { branch: String, is_merged: bool, force: bool },
}

/// The model of a `ConfirmAction`.
pub enum ConfirmView {
    Delete { branch: Seq<char>, is_merged: bool, force: bool },
}

impl View for ConfirmAction {
    type V = ConfirmView;

    open spec fn view(&self) -> ConfirmView {
        match self {
            ConfirmAction::Delete { branch, is_merged, force } => ConfirmView::Delete {
                branch: branch@,
                is_merged: *is_merged,
                force: *force,
            },
        }
    }
}

/// A key press, as far as the switcher tells keys apart.
#[derive(Clone, Copy, Debug, PartialEq, Eq, Structural)]
pub enum Key {
    Char(char),
    Enter,
    Esc,
    Backspace,
    Up,
    Down,
    Other,
}

/// Work for the caller: run a git command, or put text on the clipboard.
pub enum Request {
    Git(GitCommand),
    Copy(String),
}

/// The model of a `Request`.
pub enum RequestView {
    Git(CommandView),
    Copy(Seq<char>),
}

impl View for Request {
    type V = RequestView;

    open spec fn view(&self) -> RequestView {
        match self {
            Request::Git(c) => RequestView::Git(c@),
            Request::Copy(t) => RequestView::Copy(t@),
        }
    }
}

/// The outcome of a request: what git produced (`None`: it could not be
/// started), or whether the clipboard took the text (else why not).
pub enum Reply {
    Git(Option<GitOutput>),
    Copied(Result<(), String>),
}

/// The model of a `Reply`.
pub enum ReplyView {
    Git(Option<OutputView>),
    Copied(Result<(), Seq<char>>),
}

impl View for Reply {
    type V = ReplyView;

    open spec fn view(&self) -> ReplyView {
        match self {
            Reply::Git(o) => ReplyView::Git(output_view(*o)),
            Reply::Copied(r) => ReplyView::Copied(
                match r {
                    Ok(_) => Ok(()),
                    Err(m) => Err(m@),
                },
            ),
        }
    }
}

/// What to do with the outcome of the pending request.
pub enum Continuation {
    /// Show the commits of the selected branch.
    ShowLog,
    /// Quit once the branch is checked out.
    FinishSwitch,
    /// Report the copy.
    FinishCopy,
    /// Report the deletion of `branch`, next reload the branches.
    FinishDelete { branch: String },
    /// Report the creation of `name`, next reload the branches.
    FinishCreate { name: String },
    /// Report the renaming, next reload the branches.
    FinishRename { old: String, new: String },
    /// Keep the merged branches and list all branches next.
    ReadMerged,
    /// Take the listed branches, with `merged` from the run before.
    ReadBranches { merged: Option<GitOutput> },
}

/// The model of a `Continuation`.
pub enum ContinuationView {
    ShowLog,
    FinishSwitch,
    FinishCopy,
    FinishDelete { branch: Seq<char> },
    FinishCreate { name: Seq<char> },
    FinishRename { old: Seq<char>, new: Seq<char> },
    ReadMerged,
    ReadBranches { merged: Option<OutputView> },
}

impl View for Continuation {
    type V = ContinuationView;

    open spec fn view(&self) -> ContinuationView {
        match self {
            Continuation::ShowLog => ContinuationView::ShowLog,
            Continuation::FinishSwitch => ContinuationView::FinishSwitch,
            Continuation::FinishCopy => ContinuationView::FinishCopy,
            Continuation::FinishDelete { branch } => ContinuationView::FinishDelete {
                branch: branch@,
            },
            Continuation::FinishCreate { name } => ContinuationView::FinishCreate { name: name@ },
            Continuation::FinishRename { old, new } => ContinuationView::FinishRename {
                old: old@,
                new: new@,
            },
            Continuation::ReadMerged => ContinuationView::ReadMerged,
            Continuation::ReadBranches { merged } => ContinuationView::ReadBranches {
                merged: output_view(*merged),
            },
        }
    }
}

/// A request that waits for its outcome, and what to do with it.
pub struct Pending {
    pub request: Request,
    pub next: Continuation,
}

/// The model of a `Pending`.
pub struct PendingView {
    pub request: RequestView,
    pub next: ContinuationView,
}

impl View for Pending {
    type V = PendingView;

    open spec fn view(&self) -> PendingView {
        PendingView { request: self.request@, next: self.next@ }
    }
}

/// The switcher's state.
pub struct App {
    pub branches: Vec<Branch>,
    /// The position of the selected branch among the filtered ones.
    pub selected: usize,
    pub input_mode: InputMode,
    pub filter: String,
    pub input_buf: String,
    pub confirm_action: Option<ConfirmAction>,
    pub preview_commits: Vec<String>,
    pub status_message: Option<String>,
    pub should_quit: bool,
    pub pending: Option<Pending>,
}

/// The model of an `App`.
#[verifier::ext_equal]
pub struct AppView {
    pub branches: Seq<BranchView>,
    pub selected: int,
    pub input_mode: InputMode,
    pub filter: Seq<char>,
    pub input_buf: Seq<char>,
    pub confirm: Option<ConfirmView>,
    pub preview: Seq<Seq<char>>,
    pub status: Option<Seq<char>>,
    pub should_quit: bool,
    pub pending: Option<PendingView>,
}

impl View for App {
    type V = AppView;

    open spec fn view(&self) -> AppView {
        AppView {
            branches: self.branches.deep_view(),
            selected: self.selected as int,
            input_mode: self.input_mode,
            filter: self.filter@,
            input_buf: self.input_buf@,
            confirm: match self.confirm_action {
                Some(c) => Some(c@),
                None => None,
            },
            preview: self.preview_commits.deep_view(),
            status: self.status_message.deep_view(),
            should_quit: self.should_quit,
            pending: match self.pending {
                Some(p) => Some(p@),
                None => None,
            },
        }
    }
}

/// `prefix`, `name` and `suffix` in one string.
fn framed(prefix: &str, name: &str, suffix: &str) -> (r: String)
    ensures
        r@ == prefix@ + name@ + suffix@,
{
    let mut r = String::from_str(prefix);
    r.append(name);
    r.append(suffix);
    r
}

/// `s` without leading and trailing whitespace.
fn trimmed(s: &String) -> (r: String)
    ensures
        r@ == trim(s@),
{
    let v = chars_of(s.as_str());
    let (a, b) = crate::text::trim_range(&v, 0, v.len());
    assert(v@.subrange(0, v@.len() as int) =~= v@);
    crate::text::string_of(&v, a, b)
}

/// `String::pop`, keeping the rest.
fn pop_last(s: &mut String)
    ensures
        final(s)@ == pop_char(old(s)@),
{
    let v = chars_of(s.as_str());
    if v.len() > 0 {
        *s = crate::text::string_of(&v, 0, v.len() - 1);
        assert(v@.subrange(0, v@.len() - 1) =~= v@.drop_last());
    }
}

/// The status line after an operation: `done` on success, else the error.
fn report_of(res: &Result<String, String>, done: String) -> (r: String)
    ensures
        r@ == report(result_view(*res), done@),
{
    match res {
        Ok(_) => done,
        Err(m) => m.clone(),
    }
}

impl App {
    /// The positions, in order, of the branches whose lowercased name
    /// contains the lowercased filter (all of them when the filter is empty).
    pub fn filtered_indices(&self) -> (r: Vec<usize>)
        ensures
            as_ints(r@) == filtered(self@.branches, self.filter@),
    {
        let ghost bs = self@.branches;
        let ghost f = self.filter@;
        let everything = self.filter.as_str().is_empty();
        let wanted = chars_of(to_lowercase(self.filter.as_str()).as_str());
        let mut r: Vec<usize> = Vec::new();
        let n = self.branches.len();
        for i in 0..n
            invariant
                n == bs.len(),
                bs == self@.branches,
                f == self.filter@,
                everything == (f.len() == 0),
                wanted@ == lowercase(f),
                as_ints(r@) =~= filtered(bs.take(i as int), f),
        {
            assert(bs.take(i + 1).drop_last() =~= bs.take(i as int));
            assert(bs.take(i + 1).last() == bs[i as int]);
            if everything || contains(
                &chars_of(to_lowercase(self.branches[i].name.as_str()).as_str()),
                &wanted,
            ) {
                r.push(i);
            }
        }
        assert(bs.take(n as int) =~= bs);
        r
    }

    /// The selected branch, if the selection points into the filtered list.
    pub fn selected_branch(&self) -> (r: Option<&Branch>)
        ensures
            match r {
                Some(b) => selected_of(self@) == Some(b@),
                None => selected_of(self@) == None::<BranchView>,
            },
    {
        let f = self.filtered_indices();
        proof {
            lemma_filtered(self@.branches, self.filter@);
        }
        if self.selected < f.len() {
            assert(as_ints(f@)[self.selected as int] == f@[self.selected as int]);
            Some(&self.branches[f[self.selected]])
        } else {
            None
        }
    }

    /// Selects the current branch when the filtered list shows it.
    fn select_current_branch(&mut self)
        ensures
            final(self)@ == select_current(old(self)@),
    {
        let f = self.filtered_indices();
        let ghost fi = filtered(self@.branches, self.filter@);
        proof {
            lemma_filtered(self@.branches, self.filter@);
        }
        let n = f.len();
        let mut i: usize = 0;
        while i < n
            invariant
                n == f@.len(),
                i <= n,
                self@ == old(self)@,
                as_ints(f@) == fi,
                fi == filtered(self@.branches, self.filter@),
                forall|k: int| 0 <= k < fi.len() ==> 0 <= #[trigger] fi[k] < self@.branches.len(),
                first_current(self@.branches, fi, 0) == first_current(
                    self@.branches,
                    fi,
                    i as int,
                ),
            decreases n - i,
        {
            assert(fi[i as int] == f@[i as int]);
            if self.branches[f[i]].is_current {
                self.selected = i;
                return;
            }
            i = i + 1;
        }
    }

    /// The name of the first branch marked current, or `"HEAD"`.
    fn current_branch_name(&self) -> (r: String)
        ensures
            r@ == current_name(self@.branches),
    {
        let ghost bs = self@.branches;
        let n = self.branches.len();
        let mut j: usize = 0;
        assert(bs.subrange(0, n as int) =~= bs);
        while j < n
            invariant
                n == bs.len(),
                bs == self@.branches,
                j <= n,
                current_name(bs) == current_name(bs.subrange(j as int, n as int)),
            decreases n - j,
        {
            assert(bs.subrange(j as int, n as int)[0] == bs[j as int]);
            if self.branches[j].is_current {
                return self.branches[j].name.clone();
            }
            assert(bs.subrange(j as int, n as int).drop_first() =~= bs.subrange(j + 1, n as int));
            j = j + 1;
        }
        String::from_str("HEAD")
    }

    /// Asks for the commits of the selected branch, or empties the preview
    /// when none is selected.
    fn update_preview(&mut self)
        ensures
            final(self)@ == show_preview(old(self)@),
    {
        let cmd = match self.selected_branch() {
            Some(b) => Some(get_log(b.name.as_str(), PREVIEW_COMMITS)),
            None => None,
        };
        match cmd {
            Some(c) => {
                self.pending = Some(Pending { request: Request::Git(c), next: Continuation::ShowLog });
            },
            None => {
                self.preview_commits = Vec::new();
                assert(self@ =~= show_preview(old(self)@));
            },
        }
    }

    /// Starts reloading the branches.
    fn refresh_branches(&mut self)
        ensures
            final(self)@ == start_refresh(old(self)@),
    {
        self.pending = Some(
            Pending { request: Request::Git(merged_branches_command()), next: Continuation::ReadMerged },
        );
    }

    /// The state at start-up, from what `git branch --merged` and
    /// `git branch` produced: the current branch is selected and its commits
    /// are asked for. Fails, with git's message, when the branches cannot be
    /// listed.
    pub fn new(merged: Option<GitOutput>, listing: Option<GitOutput>) -> (r: Result<App, String>)
        ensures
            match (r, listed_branches(output_view(merged), output_view(listing))) {
                (Ok(a), Ok(bs)) => a@ == show_preview(select_current(initial(bs))) && selection_ok(
                    a@,
                ) && confirm_ok(a@),
                (Err(e), Err(m)) => e@ == m,
                _ => false,
            },
    {
        let branches = match list_branches(&merged, &listing) {
            Ok(bs) => bs,
            Err(e) => return Err(e),
        };
        let mut app = App {
            branches,
            selected: 0,
            input_mode: InputMode::Normal,
            filter: String::new(),
            input_buf: String::new(),
            confirm_action: None,
            preview_commits: Vec::new(),
            status_message: None,
            should_quit: false,
            pending: None,
        };
        let ghost bs = app@.branches;
        assert(app@ =~= initial(bs));
        app.select_current_branch();
        app.update_preview();
        proof {
            crate::laws::law_initial_selection(bs);
            crate::laws::law_initial_confirm(bs);
        }
        Ok(app)
    }

    /// Enter: check out the selected branch unless it is the current one.
    fn action_switch(&mut self)
        ensures
            final(self)@ == switch_action(old(self)@),
    {
        let name = match self.selected_branch() {
            Some(b) => if b.is_current {
                None
            } else {
                Some(b.name.clone())
            },
            None => None,
        };
        if let Some(name) = name {
            self.pending = Some(
                Pending {
                    request: Request::Git(switch_branch(name.as_str())),
                    next: Continuation::FinishSwitch,
                },
            );
        }
    }

    /// `y`: copy the name of the selected branch.
    fn action_copy(&mut self)
        ensures
            final(self)@ == copy_action(old(self)@),
    {
        let name = match self.selected_branch() {
            Some(b) => Some(b.name.clone()),
            None => None,
        };
        if let Some(name) = name {
            self.pending = Some(Pending { request: Request::Copy(name), next: Continuation::FinishCopy });
        }
    }

    /// `d`: ask to confirm the deletion of the selected branch.
    fn action_delete(&mut self)
        ensures
            final(self)@ == delete_action(old(self)@),
    {
        let chosen = match self.selected_branch() {
            Some(b) => Some((b.name.clone(), b.is_current, b.is_merged)),
            None => None,
        };
        if let Some((name, is_current, is_merged)) = chosen {
            if is_current {
                self.status_message = Some(String::from_str("Cannot delete current branch"));
                return;
            }
            if is_merged {
                self.status_message = Some(framed("Delete branch '", name.as_str(), "'? [y/n]"));
            } else {
                self.status_message = Some(
                    framed("⚠ '", name.as_str(), "' is not fully merged. [d] force delete  [n] cancel"),
                );
            }
            self.confirm_action = Some(ConfirmAction::Delete { branch: name, is_merged, force: false });
            self.input_mode = InputMode::Confirm;
        }
    }

    /// The selection moves down one place, wrapping around.
    fn select_next(&mut self)
        requires
            filtered(old(self)@.branches, old(self)@.filter).len() > 0 ==> old(self).selected + 1
                <= usize::MAX,
        ensures
            final(self)@ == move_down(old(self)@),
    {
        let n = self.filtered_indices().len();
        if n > 0 {
            self.selected = (self.selected + 1) % n;
            self.update_preview();
        }
    }

    /// The selection moves up one place, wrapping around.
    fn select_previous(&mut self)
        requires
            filtered(old(self)@.branches, old(self)@.filter).len() > 0 ==> old(self).selected
                + filtered(old(self)@.branches, old(self)@.filter).len() - 1 <= usize::MAX,
        ensures
            final(self)@ == move_up(old(self)@),
    {
        let n = self.filtered_indices().len();
        if n > 0 {
            self.selected = (self.selected + (n - 1)) % n;
            self.update_preview();
        }
    }

    /// A key in `Normal` mode.
    fn handle_normal(&mut self, key: Key)
        requires
            move_fits(old(self)@, key),
            old(self).input_mode == InputMode::Normal,
        ensures
            final(self)@ == normal_key(old(self)@, key),
    {
        match key {
            Key::Esc => {
                self.should_quit = true;
            },
            Key::Down => self.select_next(),
            Key::Up => self.select_previous(),
            Key::Enter => self.action_switch(),
            Key::Char(c) => {
                if c == 'q' {
                    self.should_quit = true;
                } else if c == 'j' {
                    self.select_next();
                } else if c == 'k' {
                    self.select_previous();
                } else if c == 'y' {
                    self.action_copy();
                } else if c == 'd' {
                    self.action_delete();
                } else if c == 'n' {
                    let current = self.current_branch_name();
                    self.input_mode = InputMode::Create;
                    self.input_buf = String::new();
                    self.status_message = Some(framed("Create from '", current.as_str(), "':"));
                } else if c == 'r' {
                    let name = match self.selected_branch() {
                        Some(b) => Some(b.name.clone()),
                        None => None,
                    };
                    if let Some(name) = name {
                        self.input_buf = name;
                        self.input_mode = InputMode::Rename;
                        self.status_message = Some(String::from_str("Rename to:"));
                    }
                } else if c == '/' {
                    self.input_mode = InputMode::Filter;
                    self.filter = String::new();
                    self.status_message = Some(String::from_str("Filter:"));
                }
            },
            _ => {},
        }
    }

    /// A key in `Filter` mode.
    fn handle_filter(&mut self, key: Key)
        ensures
            final(self)@ == filter_key(old(self)@, key),
    {
        match key {
            Key::Esc => {
                self.input_mode = InputMode::Normal;
                self.filter = String::new();
                self.selected = 0;
                self.status_message = None;
                self.select_current_branch();
                self.update_preview();
            },
            Key::Enter => {
                self.input_mode = InputMode::Normal;
                self.status_message = None;
            },
            Key::Backspace => {
                pop_last(&mut self.filter);
                self.selected = 0;
                self.update_preview();
            },
            Key::Char(c) => {
                self.filter.push(c);
                self.selected = 0;
                self.update_preview();
            },
            _ => {},
        }
    }

    /// A key in `Confirm` mode.
    fn handle_confirm(&mut self, key: Key)
        ensures
            final(self)@ == confirm_key(old(self)@, key),
    {
        let (branch, is_merged, force) = match &self.confirm_action {
            Some(ConfirmAction::Delete { branch, is_merged, force }) => (
                branch.clone(),
                *is_merged,
                *force,
            ),
            None => return ,
        };
        let cancel = key == Key::Char('n') || key == Key::Esc;
        if is_merged || force {
            if key == Key::Char('y') {
                let cmd = delete_branch(branch.as_str(), force);
                self.pending = Some(
                    Pending { request: Request::Git(cmd), next: Continuation::FinishDelete { branch } },
                );
            } else if cancel {
                self.confirm_action = None;
                self.input_mode = InputMode::Normal;
                self.status_message = None;
            }
        } else {
            if key == Key::Char('d') {
                self.status_message = Some(
                    framed("Force delete '", branch.as_str(), "' ? [y] confirm  [n] cancel"),
                );
                self.confirm_action = Some(
                    ConfirmAction::Delete { branch, is_merged: false, force: true },
                );
            } else if cancel {
                self.confirm_action = None;
                self.input_mode = InputMode::Normal;
                self.status_message = None;
            }
        }
    }

    /// A key in `Create` mode.
    fn handle_create(&mut self, key: Key)
        ensures
            final(self)@ == create_key(old(self)@, key),
    {
        match key {
            Key::Esc => {
                self.input_mode = InputMode::Normal;
                self.input_buf = String::new();
                self.status_message = None;
            },
            Key::Enter => {
                let name = trimmed(&self.input_buf);
                self.input_mode = InputMode::Normal;
                self.input_buf = String::new();
                if !name.as_str().is_empty() {
                    let cmd = create_branch(name.as_str());
                    self.pending = Some(
                        Pending { request: Request::Git(cmd), next: Continuation::FinishCreate { name } },
                    );
                }
            },
            Key::Backspace => {
                pop_last(&mut self.input_buf);
            },
            Key::Char(c) => {
                self.input_buf.push(c);
            },
            _ => {},
        }
    }

    /// A key in `Rename` mode.
    fn handle_rename(&mut self, key: Key)
        ensures
            final(self)@ == rename_key(old(self)@, key),
    {
        match key {
            Key::Esc => {
                self.input_mode = InputMode::Normal;
                self.input_buf = String::new();
                self.status_message = None;
            },
            Key::Enter => {
                let new = trimmed(&self.input_buf);
                let old = match self.selected_branch() {
                    Some(b) => Some(b.name.clone()),
                    None => None,
                };
                self.input_mode = InputMode::Normal;
                self.input_buf = String::new();
                if let Some(old) = old {
                    if !new.as_str().is_empty() && !(new == old) {
                        let cmd = rename_branch(old.as_str(), new.as_str());
                        self.pending = Some(
                            Pending {
                                request: Request::Git(cmd),
                                next: Continuation::FinishRename { old, new },
                            },
                        );
                    }
                }
            },
            Key::Backspace => {
                pop_last(&mut self.input_buf);
            },
            Key::Char(c) => {
                self.input_buf.push(c);
            },
            _ => {},
        }
    }

    /// Reacts to a key press; moving the selection must not overflow, which
    /// holds whenever the selection lies inside the filtered list, as every
    /// step keeps it.
    pub fn handle_key(&mut self, key: Key)
        requires
            move_fits(old(self)@, key),
        ensures
            final(self)@ == after_key(old(self)@, key),
            selection_ok(old(self)@) ==> selection_ok(final(self)@),
            confirm_ok(old(self)@) ==> confirm_ok(final(self)@),
    {
        proof {
            if selection_ok(old(self)@) {
                crate::laws::law_key_keeps_selection(old(self)@, key);
            }
            if confirm_ok(old(self)@) {
                crate::laws::law_key_keeps_confirm(old(self)@, key);
            }
        }
        if self.input_mode == InputMode::Normal {
            self.status_message = None;
        }
        match self.input_mode {
            InputMode::Normal => self.handle_normal(key),
            InputMode::Filter => self.handle_filter(key),
            InputMode::Confirm => self.handle_confirm(key),
            InputMode::Create => self.handle_create(key),
            InputMode::Rename => self.handle_rename(key),
        }
    }

    /// Takes the branches that a reload found, keeps the selection inside the
    /// filtered list, and asks for the commits of the selected branch.
    fn take_branches(&mut self, branches: Vec<Branch>)
        ensures
            final(self)@ == show_preview(
                clamp_selection(AppView { branches: branches.deep_view(), ..old(self)@ }),
            ),
    {
        self.branches = branches;
        let n = self.filtered_indices().len();
        if self.selected >= n {
            self.selected = if n == 0 {
                0
            } else {
                n - 1
            };
        }
        self.update_preview();
    }

    /// What the outcome `res` of a git request does; `out` is what git produced.
    fn finish_git(
        &mut self,
        next: Continuation,
        res: Result<String, String>,
        out: Option<GitOutput>,
    )
        ensures
            final(self)@ == after_git(old(self)@, next@, result_view(res), output_view(out)),
    {
        match next {
            Continuation::ShowLog => {
                self.preview_commits = match &res {
                    Ok(o) => crate::git::log_lines(o.as_str()),
                    Err(_) => Vec::new(),
                };
                assert(self@ =~= after_git(
                    old(self)@,
                    next@,
                    result_view(res),
                    output_view(out),
                ));
            },
            Continuation::FinishSwitch => match res {
                Ok(_) => {
                    self.should_quit = true;
                },
                Err(m) => {
                    self.status_message = Some(m);
                },
            },
            Continuation::FinishCopy => {},
            Continuation::FinishDelete { branch } => {
                let done = framed("Deleted branch '", branch.as_str(), "'");
                self.status_message = Some(report_of(&res, done));
                self.confirm_action = None;
                self.input_mode = InputMode::Normal;
                self.refresh_branches();
            },
            Continuation::FinishCreate { name } => {
                let done = framed("Created branch '", name.as_str(), "'");
                self.status_message = Some(report_of(&res, done));
                self.refresh_branches();
            },
            Continuation::FinishRename { old, new } => {
                let mut done = framed("Renamed '", old.as_str(), "' → '");
                done.append(new.as_str());
                done.append("'");
                self.status_message = Some(report_of(&res, done));
                self.refresh_branches();
            },
            Continuation::ReadMerged => {
                self.pending = Some(
                    Pending {
                        request: Request::Git(crate::git::branches_command()),
                        next: Continuation::ReadBranches { merged: out },
                    },
                );
            },
            Continuation::ReadBranches { merged } => {
                match list_branches(&merged, &out) {
                    Ok(bs) => self.take_branches(bs),
                    Err(_) => {},
                }
            },
        }
    }

    /// Takes the outcome of the pending request and acts on it; this may
    /// leave a further request pending. An outcome of the other kind than the
    /// request, or one that nothing waits for, changes nothing.
    pub fn resume(&mut self, reply: Reply)
        ensures
            final(self)@ == after_reply(old(self)@, reply@),
            selection_ok(old(self)@) ==> selection_ok(final(self)@),
            confirm_ok(old(self)@) ==> confirm_ok(final(self)@),
    {
        proof {
            if selection_ok(old(self)@) {
                crate::laws::law_reply_keeps_selection(old(self)@, reply@);
            }
            if confirm_ok(old(self)@) {
                crate::laws::law_reply_keeps_confirm(old(self)@, reply@);
            }
        }
        let mut taken: Option<Pending> = None;
        core::mem::swap(&mut taken, &mut self.pending);
        let p = match taken {
            Some(p) => p,
            None => return ,
        };
        match (p.request, reply) {
            (Request::Git(cmd), Reply::Git(out)) => {
                let res = cmd.result(&out);
                self.finish_git(p.next, res, out);
            },
            (Request::Copy(name), Reply::Copied(r)) => {
                self.status_message = Some(
                    match r {
                        Ok(_) => framed("Copied '", name.as_str(), "'"),
                        Err(m) => m,
                    },
                );
            },
            (request, _) => {
                self.pending = Some(Pending { request, next: p.next });
            },
        }
    }

    /// Whether `handle_key` can take `key`: moving the selection must not
    /// overflow.
    pub fn accepts_key(&self, key: Key) -> (b: bool)
        ensures
            b == move_fits(self@, key),
    {
        if self.input_mode != InputMode::Normal {
            return true;
        }
        let n = self.filtered_indices().len();
        if n == 0 {
            return true;
        }
        let down = key == Key::Down || key == Key::Char('j');
        let up = key == Key::Up || key == Key::Char('k');
        (!down || self.selected < usize::MAX) && (!up || self.selected <= usize::MAX - (n - 1))
    }
}

} // verus!
