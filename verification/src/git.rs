//! What the library knows of git: how `git branch` output reads, which
//! command lines each branch operation runs, and what such a run yields.
//!
//! Running a command is left to the caller: a `GitCommand` says what to run,
//! and `GitOutput` brings back what the process produced.

use vstd::prelude::*;
use crate::text::{
    chars_of, decimal, from_utf8_lossy, join_spaced, lossy_text, line_ranges, lines, pieces, push_decimal, push_join_spaced,
    string_of, strip_star_prefixes, strip_star_range, trim, trim_range,
};

verus! {

/// A local branch, as `git branch` lists it.
pub struct Branch {
    pub name: String,
    pub is_current: bool,
    pub is_merged: bool,
}

/// The model of a `Branch`.
pub struct BranchView {
    pub name: Seq<char>,
    pub is_current: bool,
    pub is_merged: bool,
}

impl View for Branch {
    type V = BranchView;

    open spec fn view(&self) -> BranchView {
        BranchView { name: self.name@, is_current: self.is_current, is_merged: self.is_merged }
    }
}

impl DeepView for Branch {
    type V = BranchView;

    open spec fn deep_view(&self) -> BranchView {
        self@
    }
}

/// The branch name on a line of `git branch`: the line trimmed, without the
/// `"* "` that marks the checked-out branch.
pub open spec fn branch_name(line: Seq<char>) -> Seq<char> {
    strip_star_prefixes(trim(line))
}

/// A line that holds nothing but whitespace.
pub open spec fn is_blank(line: Seq<char>) -> bool {
    trim(line).len() == 0
}

/// The lines that are not blank, in order.
pub open spec fn non_blank(ls: Seq<Seq<char>>) -> Seq<Seq<char>>
    decreases ls.len(),
{
    if ls.len() == 0 {
        seq![]
    } else if is_blank(ls.last()) {
        non_blank(ls.drop_last())
    } else {
        non_blank(ls.drop_last()).push(ls.last())
    }
}

/// The branch that a (non-blank) line of `git branch` describes: it is the
/// current one when the line starts with `'*'`, and merged when its name is
/// among `merged`.
pub open spec fn branch_of_line(line: Seq<char>, merged: Seq<Seq<char>>) -> BranchView {
    BranchView {
        name: branch_name(line),
        is_current: line.len() > 0 && line[0] == '*',
        is_merged: merged.contains(branch_name(line)),
    }
}

/// The names that the output of `git branch` lists, one per line (blank
/// lines give empty names).
pub open spec fn branch_names(output: Seq<char>) -> Seq<Seq<char>> {
    lines(output).map_values(|l: Seq<char>| branch_name(l))
}

/// The branches that the output of `git branch` lists, one per non-blank line.
pub open spec fn branches_of(output: Seq<char>, merged: Seq<Seq<char>>) -> Seq<BranchView> {
    non_blank(lines(output)).map_values(|l: Seq<char>| branch_of_line(l, merged))
}

/// The names listed in the output of `git branch`, one per line.
pub fn parse_branch_names(output: &str) -> (names: Vec<String>)
    ensures
        names.deep_view() == branch_names(output@),
{
    let v = chars_of(output);
    let ranges = line_ranges(&v);
    let ghost ls = lines(v@);
    let mut names: Vec<String> = Vec::new();
    let n = ranges.len();
    let mut i: usize = 0;
    while i < n
        invariant
            n == ranges@.len(),
            i <= n,
            ls == lines(v@),
            pieces(v@, ranges@) == ls,
            forall|k: int| 0 <= k < ranges@.len() ==> #[trigger] ranges@[k].0 <= ranges@[k].1
                <= v@.len(),
            names.deep_view() =~= ls.take(i as int).map_values(|l: Seq<char>| branch_name(l)),
        decreases n - i,
    {
        let (lo, hi) = ranges[i];
        assert(ranges@[i as int].0 <= ranges@[i as int].1 <= v@.len());
        let (a, b) = trim_range(&v, lo, hi);
        let c = strip_star_range(&v, a, b);
        let name = string_of(&v, c, b);
        assert(ls[i as int] == v@.subrange(lo as int, hi as int));
        let ghost before = names.deep_view();
        names.push(name);
        assert(names.deep_view() =~= before.push(branch_name(ls[i as int])));
        assert(ls.take(i + 1) =~= ls.take(i as int).push(ls[i as int]));
        i = i + 1;
    }
    assert(ls.take(n as int) =~= ls);
    names
}

/// Whether `name` is one of `names`.
fn is_listed(names: &[String], name: &String) -> (b: bool)
    ensures
        b == names.deep_view().contains(name@),
{
    let n = names.len();
    let mut j: usize = 0;
    while j < n
        invariant
            n == names@.len(),
            j <= n,
            forall|k: int| 0 <= k < j ==> names.deep_view()[k] != name@,
        decreases n - j,
    {
        if names[j] == *name {
            assert(names.deep_view()[j as int] == name@);
            return true;
        }
        j = j + 1;
    }
    false
}

/// The branches listed in the output of `git branch`; `merged_names` are
/// those that `git branch --merged` lists.
pub fn parse_branches(output: &str, merged_names: &[String]) -> (branches: Vec<Branch>)
    ensures
        branches.deep_view() == branches_of(output@, merged_names.deep_view()),
{
    let v = chars_of(output);
    let ranges = line_ranges(&v);
    let ghost ls = lines(v@);
    let ghost merged = merged_names.deep_view();
    let mut branches: Vec<Branch> = Vec::new();
    let n = ranges.len();
    let mut i: usize = 0;
    while i < n
        invariant
            n == ranges@.len(),
            i <= n,
            ls == lines(v@),
            merged == merged_names.deep_view(),
            pieces(v@, ranges@) == ls,
            forall|k: int| 0 <= k < ranges@.len() ==> #[trigger] ranges@[k].0 <= ranges@[k].1
                <= v@.len(),
            branches.deep_view() =~= non_blank(ls.take(i as int)).map_values(
                |l: Seq<char>| branch_of_line(l, merged),
            ),
        decreases n - i,
    {
        let (lo, hi) = ranges[i];
        assert(ranges@[i as int].0 <= ranges@[i as int].1 <= v@.len());
        let ghost line = v@.subrange(lo as int, hi as int);
        assert(ls[i as int] == line);
        assert(ls.take(i + 1).drop_last() =~= ls.take(i as int));
        let (a, b) = trim_range(&v, lo, hi);
        if a < b {
            let c = strip_star_range(&v, a, b);
            let name = string_of(&v, c, b);
            let is_current = lo < hi && v[lo] == '*';
            let is_merged = is_listed(merged_names, &name);
            let ghost before = branches.deep_view();
            branches.push(Branch { name, is_current, is_merged });
            assert(branches.deep_view() =~= before.push(branch_of_line(line, merged)));
        }
        i = i + 1;
    }
    assert(ls.take(n as int) =~= ls);
    branches
}

/// The lines of the output of `git log --oneline`, one commit each.
pub fn log_lines(output: &str) -> (entries: Vec<String>)
    ensures
        entries.deep_view() == lines(output@),
{
    let v = chars_of(output);
    let ranges = line_ranges(&v);
    let ghost ls = lines(v@);
    let mut entries: Vec<String> = Vec::new();
    let n = ranges.len();
    let mut i: usize = 0;
    while i < n
        invariant
            n == ranges@.len(),
            i <= n,
            ls == lines(v@),
            pieces(v@, ranges@) == ls,
            forall|k: int| 0 <= k < ranges@.len() ==> #[trigger] ranges@[k].0 <= ranges@[k].1
                <= v@.len(),
            entries.deep_view() =~= ls.take(i as int),
        decreases n - i,
    {
        let (lo, hi) = ranges[i];
        assert(ranges@[i as int].0 <= ranges@[i as int].1 <= v@.len());
        assert(ls[i as int] == v@.subrange(lo as int, hi as int));
        let ghost before = entries.deep_view();
        entries.push(string_of(&v, lo, hi));
        assert(entries.deep_view() =~= before.push(ls[i as int]));
        assert(ls.take(i + 1) =~= ls.take(i as int).push(ls[i as int]));
        i = i + 1;
    }
    assert(ls.take(n as int) =~= ls);
    entries
}

/// A git command line to run, with the message that replaces git's own
/// when the command fails (`None`: git's message stands).
pub struct GitCommand {
    pub args: Vec<String>,
    pub context: Option<String>,
}

/// The model of a `GitCommand`.
pub struct CommandView {
    pub args: Seq<Seq<char>>,
    pub context: Option<Seq<char>>,
}

impl View for GitCommand {
    type V = CommandView;

    open spec fn view(&self) -> CommandView {
        CommandView { args: self.args.deep_view(), context: self.context.deep_view() }
    }
}

/// What a finished git process produced: whether it exited with success,
/// the bytes of its standard output and error, and its exit status as text.
pub struct GitOutput {
    pub success: bool,
    pub stdout: Vec<u8>,
    pub stderr: Vec<u8>,
    pub status: String,
}

/// The model of a `GitOutput`.
pub struct OutputView {
    pub success: bool,
    pub stdout: Seq<u8>,
    pub stderr: Seq<u8>,
    pub status: Seq<char>,
}

impl View for GitOutput {
    type V = OutputView;

    open spec fn view(&self) -> OutputView {
        OutputView {
            success: self.success,
            stdout: self.stdout@,
            stderr: self.stderr@,
            status: self.status@,
        }
    }
}

/// The model of an optional output (`None`: git could not be started).
pub open spec fn output_view(out: Option<GitOutput>) -> Option<OutputView> {
    match out {
        Some(o) => Some(o@),
        None => None,
    }
}

/// What running `git` with `args` yields: its standard output, decoded, when
/// it succeeds; else its decoded and trimmed standard error, or, when that is
/// empty, a line naming the command and its exit status; and a message of its
/// own when git could not be started at all.
pub open spec fn git_result(args: Seq<Seq<char>>, out: Option<OutputView>) -> Result<
    Seq<char>,
    Seq<char>,
> {
    match out {
        None => Err("failed to run: git "@ + join_spaced(args)),
        Some(o) => if o.success {
            Ok(lossy_text(o.stdout))
        } else if trim(lossy_text(o.stderr)).len() == 0 {
            Err("git "@ + join_spaced(args) + " exited with "@ + o.status)
        } else {
            Err(trim(lossy_text(o.stderr)))
        },
    }
}

/// What running a command yields: as `git_result`, but a failure reads as the
/// command's context message when it has one.
pub open spec fn command_result(cmd: CommandView, out: Option<OutputView>) -> Result<
    Seq<char>,
    Seq<char>,
> {
    match git_result(cmd.args, out) {
        Ok(o) => Ok(o),
        Err(m) => Err(
            match cmd.context {
                Some(c) => c,
                None => m,
            },
        ),
    }
}

/// The outcome of running `git` with `args`, given what the process produced
/// (`None`: it could not be started).
pub fn run_git(args: &Vec<String>, output: &Option<GitOutput>) -> (r: Result<String, String>)
    ensures
        match r {
            Ok(o) => git_result(args.deep_view(), output_view(*output)) == Ok::<
                Seq<char>,
                Seq<char>,
            >(o@),
            Err(e) => git_result(args.deep_view(), output_view(*output)) == Err::<
                Seq<char>,
                Seq<char>,
            >(e@),
        },
{
    match output {
        None => {
            let mut m = String::from_str("failed to run: git ");
            push_join_spaced(&mut m, args);
            Err(m)
        },
        Some(o) => {
            if o.success {
                Ok(from_utf8_lossy(o.stdout.as_slice()))
            } else {
                let v = chars_of(from_utf8_lossy(o.stderr.as_slice()).as_str());
                let (a, b) = trim_range(&v, 0, v.len());
                assert(v@.subrange(0, v@.len() as int) =~= v@);
                if a == b {
                    let mut m = String::from_str("git ");
                    push_join_spaced(&mut m, args);
                    m.append(" exited with ");
                    m.append(o.status.as_str());
                    Err(m)
                } else {
                    Err(string_of(&v, a, b))
                }
            }
        },
    }
}

impl GitCommand {
    /// The outcome of running this command, given what the process produced.
    pub fn result(&self, output: &Option<GitOutput>) -> (r: Result<String, String>)
        ensures
            match r {
                Ok(o) => command_result(self@, output_view(*output)) == Ok::<
                    Seq<char>,
                    Seq<char>,
                >(o@),
                Err(e) => command_result(self@, output_view(*output)) == Err::<
                    Seq<char>,
                    Seq<char>,
                >(e@),
            },
    {
        match run_git(&self.args, output) {
            Ok(o) => Ok(o),
            Err(m) => match &self.context {
                Some(c) => Err(c.clone()),
                None => Err(m),
            },
        }
    }
}

fn text(s: &str) -> (r: String)
    ensures
        r@ == s@,
{
    String::from_str(s)
}

/// `git branch --merged`.
pub open spec fn merged_branches_spec() -> CommandView {
    CommandView { args: seq!["branch"@, "--merged"@], context: None }
}

/// `git branch`.
pub open spec fn branches_spec() -> CommandView {
    CommandView { args: seq!["branch"@], context: None }
}

/// `git switch <name>`.
pub open spec fn switch_spec(name: Seq<char>) -> CommandView {
    CommandView {
        args: seq!["switch"@, name],
        context: Some("Could not switch to '"@ + name + "'. Do you have uncommitted changes?"@),
    }
}

/// `git branch -d <name>`, or `-D` when forced.
pub open spec fn delete_spec(name: Seq<char>, force: bool) -> CommandView {
    CommandView {
        args: seq!["branch"@, if force { "-D"@ } else { "-d"@ }, name],
        context: Some("Could not delete branch '"@ + name + "'"@),
    }
}

/// `git branch <name>`.
pub open spec fn create_spec(name: Seq<char>) -> CommandView {
    CommandView {
        args: seq!["branch"@, name],
        context: Some("Could not create branch '"@ + name + "'. Does it already exist?"@),
    }
}

/// `git branch -m <old> <new>`.
pub open spec fn rename_spec(old: Seq<char>, new: Seq<char>) -> CommandView {
    CommandView {
        args: seq!["branch"@, "-m"@, old, new],
        context: Some("Could not rename '"@ + old + "' to '"@ + new + "'"@),
    }
}

/// `git log <branch> -<count> --oneline --no-decorate`.
pub open spec fn log_spec(branch: Seq<char>, count: nat) -> CommandView {
    CommandView {
        args: seq!["log"@, branch, "-"@ + decimal(count), "--oneline"@, "--no-decorate"@],
        context: None,
    }
}

/// The command that lists the branches merged into the current one.
pub fn merged_branches_command() -> (c: GitCommand)
    ensures
        c@ == merged_branches_spec(),
{
    let mut args: Vec<String> = Vec::new();
    args.push(text("branch"));
    args.push(text("--merged"));
    let c = GitCommand { args, context: None };
    assert(c@.args =~= merged_branches_spec().args);
    c
}

/// The command that lists the local branches.
pub fn branches_command() -> (c: GitCommand)
    ensures
        c@ == branches_spec(),
{
    let mut args: Vec<String> = Vec::new();
    args.push(text("branch"));
    let c = GitCommand { args, context: None };
    assert(c@.args =~= branches_spec().args);
    c
}

/// The command that checks out branch `name`.
pub fn switch_branch(name: &str) -> (c: GitCommand)
    ensures
        c@ == switch_spec(name@),
{
    let mut args: Vec<String> = Vec::new();
    args.push(text("switch"));
    args.push(text(name));
    let mut m = text("Could not switch to '");
    m.append(name);
    m.append("'. Do you have uncommitted changes?");
    let c = GitCommand { args, context: Some(m) };
    assert(c@.args =~= switch_spec(name@).args);
    c
}

/// The command that deletes branch `name`; `force` deletes it even when it
/// is not merged.
pub fn delete_branch(name: &str, force: bool) -> (c: GitCommand)
    ensures
        c@ == delete_spec(name@, force),
{
    let mut args: Vec<String> = Vec::new();
    args.push(text("branch"));
    args.push(
        if force {
            text("-D")
        } else {
            text("-d")
        },
    );
    args.push(text(name));
    let mut m = text("Could not delete branch '");
    m.append(name);
    m.append("'");
    let c = GitCommand { args, context: Some(m) };
    assert(c@.args =~= delete_spec(name@, force).args);
    c
}

/// The command that creates branch `name` at the current commit.
pub fn create_branch(name: &str) -> (c: GitCommand)
    ensures
        c@ == create_spec(name@),
{
    let mut args: Vec<String> = Vec::new();
    args.push(text("branch"));
    args.push(text(name));
    let mut m = text("Could not create branch '");
    m.append(name);
    m.append("'. Does it already exist?");
    let c = GitCommand { args, context: Some(m) };
    assert(c@.args =~= create_spec(name@).args);
    c
}

/// The command that renames branch `old` to `new`.
pub fn rename_branch(old: &str, new: &str) -> (c: GitCommand)
    ensures
        c@ == rename_spec(old@, new@),
{
    let mut args: Vec<String> = Vec::new();
    args.push(text("branch"));
    args.push(text("-m"));
    args.push(text(old));
    args.push(text(new));
    let mut m = text("Could not rename '");
    m.append(old);
    m.append("' to '");
    m.append(new);
    m.append("'");
    let c = GitCommand { args, context: Some(m) };
    assert(c@.args =~= rename_spec(old@, new@).args);
    c
}

/// The command that lists the last `count` commits of `branch`, one line each.
pub fn get_log(branch: &str, count: usize) -> (c: GitCommand)
    ensures
        c@ == log_spec(branch@, count as nat),
{
    let mut args: Vec<String> = Vec::new();
    args.push(text("log"));
    args.push(text(branch));
    let mut n = text("-");
    push_decimal(&mut n, count);
    args.push(n);
    args.push(text("--oneline"));
    args.push(text("--no-decorate"));
    let c = GitCommand { args, context: None };
    assert(c@.args =~= log_spec(branch@, count as nat).args);
    c
}

/// The branches that the runs of `git branch --merged` and `git branch`
/// report: a failure of the first leaves every branch unmerged, a failure of
/// the second is the result.
pub open spec fn listed_branches(merged: Option<OutputView>, listing: Option<OutputView>) -> Result<
    Seq<BranchView>,
    Seq<char>,
> {
    let names = match git_result(merged_branches_spec().args, merged) {
        Ok(o) => branch_names(o),
        Err(_) => seq![],
    };
    match git_result(branches_spec().args, listing) {
        Ok(o) => Ok(branches_of(o, names)),
        Err(e) => Err(e),
    }
}

/// The local branches, from what the runs of `merged_branches_command` and
/// `branches_command` produced.
pub fn list_branches(merged: &Option<GitOutput>, listing: &Option<GitOutput>) -> (r: Result<
    Vec<Branch>,
    String,
>)
    ensures
        match r {
            Ok(bs) => listed_branches(output_view(*merged), output_view(*listing)) == Ok::<
                Seq<BranchView>,
                Seq<char>,
            >(bs.deep_view()),
            Err(e) => listed_branches(output_view(*merged), output_view(*listing)) == Err::<
                Seq<BranchView>,
                Seq<char>,
            >(e@),
        },
{
    let merged_names = match merged_branches_command().result(merged) {
        Ok(o) => parse_branch_names(o.as_str()),
        Err(_) => Vec::new(),
    };
    assert(merged_names.deep_view() =~= match git_result(merged_branches_spec().args, output_view(*merged)) {
        Ok(o) => branch_names(o),
        Err(_) => seq![],
    });
    match branches_command().result(listing) {
        Ok(o) => Ok(parse_branches(o.as_str(), merged_names.as_slice())),
        Err(e) => Err(e),
    }
}

} // verus!
