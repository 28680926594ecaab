//! openSUSE: zypper, with `rpm` for what is installed.
use vstd::prelude::*;
use crate::text::{
    chars_of, char_from, contains_str, eq_ignore_ascii_case, eq_ignore_case, has_prefix, lines,
    seqs_of, slice_chars, split_char, split_lines, split_on, starts_with, trim, trim_chars,
    trim_start, trim_start_chars, lemma_split_nonempty,
};
use super::{
    collect, command, lemma_collect_step, lemma_take_all, packages_view, pkg, repo, repos_view,
    CommandView, PackageInfo, PackageManager, PackageView, PmCommand, RepoInfo, RepoSource,
    RepoSourceView, RepoView,
};

verus! {

pub struct Zypper;

/// The cells of a `|`-separated table row, each trimmed.
pub open spec fn pipe_cells(l: Seq<char>) -> Seq<Seq<char>> {
    split_char(l, '|').map_values(|c: Seq<char>| trim(c))
}

/// `s` holds the character `c`.
pub open spec fn has_char(s: Seq<char>, c: char) -> bool {
    char_from(s, c, 0) < s.len()
}

/// Lines that are not table rows: no '|' at all, or a "---+---" rule.
pub open spec fn not_a_row(l: Seq<char>) -> bool {
    !has_char(l, '|') || starts_with(trim_start(l), "-"@)
}

/// A row of `zypper se`: "S | Name | Summary | Type", 'i' in the status
/// column marking an installed package.
pub open spec fn search_line(l: Seq<char>) -> Option<PackageView> {
    let cols = pipe_cells(l);
    if not_a_row(l) || cols.len() < 3 || eq_ignore_case(cols[1], "Name"@) {
        None
    } else {
        Some(pkg(cols[1], Seq::empty(), cols[2], has_char(trim(cols[0]), 'i')))
    }
}

pub open spec fn search_fn() -> spec_fn(int, Seq<char>) -> Option<PackageView> {
    |i: int, l: Seq<char>| search_line(l)
}

pub open spec fn search_results(out: Seq<char>) -> Seq<PackageView> {
    collect(lines(out), search_fn())
}

/// The `n`th tab-separated field of `l`, or nothing.
pub open spec fn field(l: Seq<char>, n: int) -> Seq<char> {
    if n < split_char(l, '\t').len() {
        split_char(l, '\t')[n]
    } else {
        Seq::empty()
    }
}

/// A line of `rpm -qa --qf '%{NAME}\t%{VERSION}\t%{SUMMARY}\n'`.
pub open spec fn installed_line(l: Seq<char>) -> Option<PackageView> {
    Some(pkg(field(l, 0), field(l, 1), field(l, 2), true))
}

pub open spec fn installed_fn() -> spec_fn(int, Seq<char>) -> Option<PackageView> {
    |i: int, l: Seq<char>| installed_line(l)
}

pub open spec fn installed_results(out: Seq<char>) -> Seq<PackageView> {
    collect(lines(out), installed_fn())
}

/// A row of `zypper lr -d`: "# | Alias | Name | Enabled | ... | URI".
pub open spec fn repo_line(l: Seq<char>) -> Option<RepoView> {
    let cols = pipe_cells(l);
    if not_a_row(l) || cols.len() < 4 || eq_ignore_case(cols[1], "Alias"@) {
        None
    } else {
        Some(repo(cols[1], cols[2], cols.last(), eq_ignore_case(cols[3], "Yes"@)))
    }
}

pub open spec fn repo_fn() -> spec_fn(int, Seq<char>) -> Option<RepoView> {
    |i: int, l: Seq<char>| repo_line(l)
}

pub open spec fn repo_results(text: Seq<char>) -> Seq<RepoView> {
    collect(lines(text), repo_fn())
}

/// The trimmed cells of a `|`-separated row.
pub fn split_pipes(l: &[char]) -> (r: Vec<Vec<char>>)
    ensures
        seqs_of(r@) == pipe_cells(l@),
{
    let parts = split_on(l, '|');
    let ghost ps = split_char(l@, '|');
    let mut r: Vec<Vec<char>> = Vec::new();
    let mut i: usize = 0;
    while i < parts.len()
        invariant
            i <= parts@.len(),
            seqs_of(parts@) == ps,
            r@.len() == i,
            forall|k: int| 0 <= k < i ==> #[trigger] r@[k]@ == trim(ps[k]),
        decreases parts@.len() - i,
    {
        assert(parts@[i as int]@ == ps[i as int]);
        r.push(trim_chars(parts[i].as_slice()));
        i += 1;
    }
    assert(seqs_of(r@) =~= pipe_cells(l@));
    r
}

fn has_char_exec(s: &[char], c: char) -> (b: bool)
    ensures
        b == has_char(s@, c),
{
    let n = s.len();
    let mut k: usize = 0;
    while k < n && s[k] != c
        invariant
            k <= n == s@.len(),
            char_from(s@, c, 0) == char_from(s@, c, k as int),
        decreases n - k,
    {
        k += 1;
    }
    k < n
}

fn not_a_row_exec(l: &[char]) -> (b: bool)
    ensures
        b == not_a_row(l@),
{
    let dash = chars_of("-");
    let t = trim_start_chars(l);
    !has_char_exec(l, '|') || has_prefix(t.as_slice(), dash.as_slice())
}

fn search_line_exec(l: &[char]) -> (r: Option<PackageInfo>)
    ensures
        match (r, search_line(l@)) {
            (Some(x), Some(y)) => x@ == y,
            (None, None) => true,
            _ => false,
        },
{
    if not_a_row_exec(l) {
        return None;
    }
    let cols = split_pipes(l);
    let header = chars_of("Name");
    if cols.len() < 3 {
        return None;
    }
    assert(cols@[0]@ == pipe_cells(l@)[0]);
    assert(cols@[1]@ == pipe_cells(l@)[1]);
    assert(cols@[2]@ == pipe_cells(l@)[2]);
    if eq_ignore_ascii_case(cols[1].as_slice(), header.as_slice()) {
        return None;
    }
    let status = trim_chars(cols[0].as_slice());
    let installed = has_char_exec(status.as_slice(), 'i');
    let empty: Vec<char> = Vec::new();
    Some(PackageInfo::from_chars(cols[1].as_slice(), empty.as_slice(), cols[2].as_slice(), installed))
}

fn field_exec(parts: &Vec<Vec<char>>, n: usize) -> (r: Vec<char>)
    ensures
        n < parts@.len() ==> r@ == parts@[n as int]@,
        n >= parts@.len() ==> r@ == Seq::<char>::empty(),
{
    if n < parts.len() {
        let m = parts[n].len();
        slice_chars(parts[n].as_slice(), 0, m)
    } else {
        Vec::new()
    }
}

fn installed_line_exec(l: &[char]) -> (r: PackageInfo)
    ensures
        installed_line(l@) == Some(r@),
{
    let parts = split_on(l, '\t');
    proof { lemma_split_nonempty(l@, '\t'); }
    let a = field_exec(&parts, 0);
    let b = field_exec(&parts, 1);
    let c = field_exec(&parts, 2);
    assert(a@ == field(l@, 0));
    assert(b@ == field(l@, 1)) by {
        if 1 < parts@.len() { assert(parts@[1]@ == split_char(l@, '\t')[1]); }
    }
    assert(c@ == field(l@, 2)) by {
        if 2 < parts@.len() { assert(parts@[2]@ == split_char(l@, '\t')[2]); }
    }
    PackageInfo::from_chars(a.as_slice(), b.as_slice(), c.as_slice(), true)
}

fn repo_line_exec(l: &[char]) -> (r: Option<RepoInfo>)
    ensures
        match (r, repo_line(l@)) {
            (Some(x), Some(y)) => x@ == y,
            (None, None) => true,
            _ => false,
        },
{
    if not_a_row_exec(l) {
        return None;
    }
    let cols = split_pipes(l);
    let header = chars_of("Alias");
    let yes = chars_of("Yes");
    if cols.len() < 4 {
        return None;
    }
    let last = cols.len() - 1;
    assert(cols@[1]@ == pipe_cells(l@)[1]);
    assert(cols@[2]@ == pipe_cells(l@)[2]);
    assert(cols@[3]@ == pipe_cells(l@)[3]);
    assert(cols@[last as int]@ == pipe_cells(l@).last());
    if eq_ignore_ascii_case(cols[1].as_slice(), header.as_slice()) {
        return None;
    }
    let enabled = eq_ignore_ascii_case(cols[3].as_slice(), yes.as_slice());
    Some(RepoInfo::from_chars(cols[1].as_slice(), cols[2].as_slice(), cols[last].as_slice(), enabled))
}

/// The packages in `zypper se` output.
pub fn parse_search_output(out: &str) -> (r: Vec<PackageInfo>)
    ensures
        packages_view(r@) == search_results(out@),
{
    let t = chars_of(out);
    let ls = split_lines(t.as_slice());
    let ghost lv = lines(out@);
    let mut r: Vec<PackageInfo> = Vec::new();
    let mut i: usize = 0;
    assert(packages_view(r@) =~= collect(lv.take(0), search_fn()));
    while i < ls.len()
        invariant
            i <= ls@.len(),
            seqs_of(ls@) == lv,
            packages_view(r@) == collect(lv.take(i as int), search_fn()),
        decreases ls@.len() - i,
    {
        proof { lemma_collect_step(lv, search_fn(), i as int); }
        assert(ls@[i as int]@ == lv[i as int]);
        match search_line_exec(ls[i].as_slice()) {
            Some(x) => {
                let ghost before = r@;
                let ghost xv = x@;
                r.push(x);
                assert(packages_view(r@) =~= packages_view(before).push(xv));
            },
            None => {},
        }
        i += 1;
    }
    proof { lemma_take_all(lv); }
    r
}

/// The packages in `rpm -qa` output: one per line.
pub fn parse_installed_output(out: &str) -> (r: Vec<PackageInfo>)
    ensures
        packages_view(r@) == installed_results(out@),
{
    let t = chars_of(out);
    let ls = split_lines(t.as_slice());
    let ghost lv = lines(out@);
    let mut r: Vec<PackageInfo> = Vec::new();
    let mut i: usize = 0;
    assert(packages_view(r@) =~= collect(lv.take(0), installed_fn()));
    while i < ls.len()
        invariant
            i <= ls@.len(),
            seqs_of(ls@) == lv,
            packages_view(r@) == collect(lv.take(i as int), installed_fn()),
        decreases ls@.len() - i,
    {
        proof { lemma_collect_step(lv, installed_fn(), i as int); }
        assert(ls@[i as int]@ == lv[i as int]);
        let x = installed_line_exec(ls[i].as_slice());
        let ghost before = r@;
        let ghost xv = x@;
        r.push(x);
        assert(packages_view(r@) =~= packages_view(before).push(xv));
        i += 1;
    }
    proof { lemma_take_all(lv); }
    r
}

/// The repositories in `zypper lr -d` output.
pub fn parse_repo_output(text: &str) -> (r: Vec<RepoInfo>)
    ensures
        repos_view(r@) == repo_results(text@),
{
    let t = chars_of(text);
    let ls = split_lines(t.as_slice());
    let ghost lv = lines(text@);
    let mut r: Vec<RepoInfo> = Vec::new();
    let mut i: usize = 0;
    assert(repos_view(r@) =~= collect(lv.take(0), repo_fn()));
    while i < ls.len()
        invariant
            i <= ls@.len(),
            seqs_of(ls@) == lv,
            repos_view(r@) == collect(lv.take(i as int), repo_fn()),
        decreases ls@.len() - i,
    {
        proof { lemma_collect_step(lv, repo_fn(), i as int); }
        assert(ls@[i as int]@ == lv[i as int]);
        match repo_line_exec(ls[i].as_slice()) {
            Some(x) => {
                let ghost before = r@;
                let ghost xv = x@;
                r.push(x);
                assert(repos_view(r@) =~= repos_view(before).push(xv));
            },
            None => {},
        }
        i += 1;
    }
    proof { lemma_take_all(lv); }
    r
}

impl PackageManager for Zypper {
    open spec fn name_spec(&self) -> Seq<char> {
        "Zypper (openSUSE)"@
    }

    open spec fn binary_spec(&self) -> Seq<char> {
        "zypper"@
    }

    open spec fn search_spec(&self, query: Seq<char>, system: bool) -> CommandView {
        command("zypper"@, seq!["--non-interactive"@, "se"@, query], false)
    }

    open spec fn probe_spec(&self, system: bool) -> Option<CommandView> {
        None
    }

    open spec fn search_results(&self, out: Seq<char>, probe: Seq<char>) -> Seq<PackageView> {
        search_results(out)
    }

    open spec fn installed_spec(&self, system: bool) -> CommandView {
        command("rpm"@, seq!["-qa"@, "--qf"@, "%{NAME}\t%{VERSION}\t%{SUMMARY}\n"@], false)
    }

    open spec fn installed_results(&self, out: Seq<char>) -> Seq<PackageView> {
        installed_results(out)
    }

    open spec fn install_spec(&self, pkg: Seq<char>, system: bool) -> CommandView {
        command("zypper"@, seq!["--non-interactive"@, "install"@, pkg], true)
    }

    open spec fn remove_spec(&self, pkg: Seq<char>, system: bool) -> CommandView {
        command("zypper"@, seq!["--non-interactive"@, "remove"@, pkg], true)
    }

    open spec fn update_index_spec(&self, system: bool) -> CommandView {
        command("zypper"@, seq!["--non-interactive"@, "refresh"@], true)
    }

    open spec fn upgrade_all_spec(&self, system: bool) -> CommandView {
        command("zypper"@, seq!["--non-interactive"@, "update"@], true)
    }

    open spec fn repo_source_spec(&self, system: bool) -> RepoSourceView {
        RepoSourceView::Command(command("zypper"@, seq!["--non-interactive"@, "lr"@, "-d"@], false))
    }

    open spec fn repo_results(&self, origin: Seq<char>, text: Seq<char>) -> Seq<RepoView> {
        repo_results(text)
    }

    open spec fn add_repo_spec(&self, repo: Seq<char>, system: bool) -> CommandView {
        command("zypper"@, seq!["ar"@, "-f"@, repo], true)
    }

    open spec fn remove_repo_spec(&self, repo_id: Seq<char>, system: bool) -> CommandView {
        command("zypper"@, seq!["rr"@, repo_id], true)
    }

    fn display_name(&self) -> (r: &'static str) {
        "Zypper (openSUSE)"
    }

    fn binary(&self) -> (r: &'static str) {
        "zypper"
    }

    fn search_cmd(&self, query: &str, system: bool) -> (c: PmCommand) {
        PmCommand::new("zypper", &["--non-interactive", "se", query], false)
    }

    fn probe_cmd(&self, system: bool) -> (c: Option<PmCommand>) {
        None
    }

    fn parse_search(&self, out: &str, probe: &str) -> (r: Vec<PackageInfo>) {
        parse_search_output(out)
    }

    fn list_installed_cmd(&self, system: bool) -> (c: PmCommand) {
        PmCommand::new("rpm", &["-qa", "--qf", "%{NAME}\t%{VERSION}\t%{SUMMARY}\n"], false)
    }

    fn parse_installed(&self, out: &str) -> (r: Vec<PackageInfo>) {
        parse_installed_output(out)
    }

    fn install_cmd(&self, pkg: &str, system: bool) -> (c: PmCommand) {
        PmCommand::new("zypper", &["--non-interactive", "install", pkg], true)
    }

    fn remove_cmd(&self, pkg: &str, system: bool) -> (c: PmCommand) {
        PmCommand::new("zypper", &["--non-interactive", "remove", pkg], true)
    }

    fn update_index_cmd(&self, system: bool) -> (c: PmCommand) {
        PmCommand::new("zypper", &["--non-interactive", "refresh"], true)
    }

    fn upgrade_all_cmd(&self, system: bool) -> (c: PmCommand) {
        PmCommand::new("zypper", &["--non-interactive", "update"], true)
    }

    fn repo_source(&self, system: bool) -> (r: RepoSource) {
        RepoSource::Command(PmCommand::new("zypper", &["--non-interactive", "lr", "-d"], false))
    }

    fn parse_repos(&self, origin: &str, text: &str) -> (r: Vec<RepoInfo>) {
        parse_repo_output(text)
    }

    fn add_repo_cmd(&self, repo: &str, system: bool) -> (c: PmCommand) {
        // `repo` is a URL; zypper derives an alias itself.
        PmCommand::new("zypper", &["ar", "-f", repo], true)
    }

    fn remove_repo_cmd(&self, repo_id: &str, system: bool) -> (c: PmCommand) {
        PmCommand::new("zypper", &["rr", repo_id], true)
    }
}

} // verus!
