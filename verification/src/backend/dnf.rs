//! Fedora/RHEL: DNF.
use vstd::prelude::*;
use crate::text::{
    chars_of, has_prefix, has_suffix, is_whitespace, lines, non_ws_from, seqs_of, slice_chars,
    split_char, split_lines, split_on, split_once, split_once_str, split_words, starts_with,
    ends_with, trim, trim_chars, trim_end_str, trim_end_str_chars, words, ws_from, is_ws, trim_start,
    trim_end, lemma_ws_from_first, lemma_trim_start_keeps_tail, lemma_trim_noop, ascii_lower,
};
use super::{
    listed, listed_exec, collect, command, lemma_collect_step, lemma_collect_complete, lemma_take_all, lower, packages_view, pkg, repo,
    repos_view, CommandView, PackageInfo, PackageManager, PackageView, PmCommand, RepoInfo,
    RepoSource, RepoSourceView, RepoView,
};

verus! {

pub struct Dnf;

/// The package name in "name.arch": what precedes the first '.'.
pub open spec fn strip_arch(s: Seq<char>) -> Seq<char> {
    split_char(s, '.')[0]
}

/// A line of `dnf -q search`: "name.arch : summary".
pub open spec fn search_line(probe: Seq<char>, l: Seq<char>) -> Option<PackageView> {
    match split_once(l, " : "@) {
        Some((name_arch, desc)) => {
            let name = trim(strip_arch(name_arch));
            if name.len() == 0 {
                None
            } else {
                Some(pkg(name, Seq::empty(), trim(desc), listed(probe, name)))
            }
        },
        None => None,
    }
}

pub open spec fn search_fn(probe: Seq<char>) -> spec_fn(int, Seq<char>) -> Option<PackageView> {
    |i: int, l: Seq<char>| search_line(probe, l)
}

pub open spec fn search_results(out: Seq<char>, probe: Seq<char>) -> Seq<PackageView> {
    collect(lines(out), search_fn(probe))
}

/// A line of `dnf -q list installed`: "name.arch  version  repo".
pub open spec fn installed_line(l: Seq<char>) -> Option<PackageView> {
    let cols = words(l);
    if starts_with(l, "Installed Packages"@) || trim(l).len() == 0 || cols.len() < 2 {
        None
    } else {
        Some(pkg(strip_arch(cols[0]), cols[1], if cols.len() > 2 { cols[2] } else { Seq::empty() }, true))
    }
}

pub open spec fn installed_fn() -> spec_fn(int, Seq<char>) -> Option<PackageView> {
    |i: int, l: Seq<char>| installed_line(l)
}

pub open spec fn installed_results(out: Seq<char>) -> Seq<PackageView> {
    collect(lines(out), installed_fn())
}

/// The part of `l` before its first white-space character, and the part
/// after it, if there is one (`splitn(2, char::is_whitespace)`).
pub open spec fn split_first_ws(l: Seq<char>) -> (Seq<char>, Seq<char>) {
    let k = ws_from(l, 0);
    if k >= l.len() {
        (l, Seq::empty())
    } else {
        (l.take(k), l.skip(k + 1))
    }
}

/// A line of `dnf -q repolist --all`: "id   name   enabled|disabled".
pub open spec fn repo_line(l: Seq<char>) -> Option<RepoView> {
    if starts_with(l, "repo id"@) || trim(l).len() == 0 {
        None
    } else {
        let id = trim(split_first_ws(l).0);
        let rest = trim(split_first_ws(l).1);
        let name = trim(trim_end_str(trim_end_str(rest, "disabled"@), "enabled"@));
        Some(repo(id, name, id, !ends_with(lower(rest), "disabled"@)))
    }
}

pub open spec fn repo_fn() -> spec_fn(int, Seq<char>) -> Option<RepoView> {
    |i: int, l: Seq<char>| repo_line(l)
}

pub open spec fn repo_results(text: Seq<char>) -> Seq<RepoView> {
    collect(lines(text), repo_fn())
}

/// A row of `dnf repolist`: the repository's id at the very start of the
/// line, then white space, then the other columns.
pub open spec fn is_repo_row(l: Seq<char>) -> bool {
    &&& !starts_with(l, "repo id"@)
    &&& l.len() > 0
    &&& !is_ws(l[0])
    &&& exists|i: int| 0 < i < l.len() && #[trigger] is_ws(l[i])
}

/// Of a row that ends in `t` (in any letter case, `t` holding no white
/// space): the row is not blank, its id column is its first word, and the
/// rest of the row, trimmed, still ends in `t`.
proof fn lemma_row_parts(l: Seq<char>, t: Seq<char>)
    requires
        is_repo_row(l),
        t.len() > 0,
        forall|p: int| 0 <= p < t.len() ==> !is_ws(#[trigger] t[p]),
        ends_with(lower(l), t),
    ensures
        trim(l).len() > 0,
        trim(split_first_ws(l).0) == words(l)[0],
        ends_with(lower(trim(split_first_ws(l).1)), t),
{
    let n = l.len() as int;
    let tl = t.len() as int;
    let i = choose|i: int| 0 < i < l.len() && #[trigger] is_ws(l[i]);
    lemma_ws_from_first(l, 0, i);
    let k = ws_from(l, 0);
    assert forall|p: int| n - tl <= p < n implies !is_ws(#[trigger] l[p]) by {
        assert(lower(l)[p] == ascii_lower(l[p]));
        assert(lower(l)[p] == t[p - (n - tl)]);
        if is_ws(l[p]) {
            assert(ascii_lower(l[p]) == l[p]);
        }
    }
    assert(k < n - tl);
    crate::text::lemma_ws_from(l, 0);
    assert(k > 0);
    // The whole row is already trimmed.
    lemma_trim_noop(l);
    assert(trim(l) == l);
    // The id column.
    let id = l.take(k);
    assert(id[0] == l[0]);
    assert(id.last() == l[k - 1]);
    lemma_trim_noop(id);
    assert(trim_start(id) == id);
    assert(trim(id) == id);
    assert(words(l)[0] == l.subrange(0, k));
    assert(id =~= l.subrange(0, k));
    // The rest of the row.
    let s2 = l.skip(k + 1);
    assert forall|p: int| s2.len() - tl <= p < s2.len() implies !is_ws(#[trigger] s2[p]) by {
        assert(s2[p] == l[p + k + 1]);
    }
    lemma_trim_start_keeps_tail(s2, tl);
    let ts = trim_start(s2);
    lemma_trim_noop(ts);
    assert(trim(s2) == ts);
    assert(s2.skip(s2.len() - tl) =~= l.skip(n - tl));
    let lt = lower(ts);
    assert(lt.skip(lt.len() - tl) =~= t) by {
        assert forall|q: int| 0 <= q < tl implies #[trigger] lt.skip(lt.len() - tl)[q] == t[q] by {
            assert(lt.skip(lt.len() - tl)[q] == ascii_lower(ts[ts.len() - tl + q]));
            assert(ts.skip(ts.len() - tl)[q] == ts[ts.len() - tl + q]);
            assert(l.skip(n - tl)[q] == l[n - tl + q]);
            assert(lower(l)[n - tl + q] == ascii_lower(l[n - tl + q]));
            assert(lower(l).skip(n - tl)[q] == lower(l)[n - tl + q]);
        }
    }
}

/// The status column decides whether a listed repository is enabled: a row
/// ending in "disabled" (in any letter case) lists its repository, named by
/// the row's first word, as disabled, and a row ending in "enabled" lists it
/// as enabled.
pub proof fn lemma_dnf_status_column(origin: Seq<char>, text: Seq<char>)
    ensures
        forall|k: int| 0 <= k < lines(text).len() && is_repo_row(#[trigger] lines(text)[k]) ==> {
            let l = lines(text)[k];
            let listed = Dnf.repo_results(origin, text);
            &&& ends_with(lower(l), "disabled"@) ==> exists|j: int|
                0 <= j < listed.len() && (#[trigger] listed[j]).id == words(l)[0] && !listed[j].enabled
            &&& ends_with(lower(l), "enabled"@) ==> exists|j: int|
                0 <= j < listed.len() && (#[trigger] listed[j]).id == words(l)[0] && listed[j].enabled
        },
{
    reveal_strlit("disabled");
    reveal_strlit("enabled");
    let d = "disabled"@;
    let e = "enabled"@;
    assert(d =~= seq!['d', 'i', 's', 'a', 'b', 'l', 'e', 'd']);
    assert(e =~= seq!['e', 'n', 'a', 'b', 'l', 'e', 'd']);
    let ls = lines(text);
    let listed = Dnf.repo_results(origin, text);
    assert forall|k: int| 0 <= k < ls.len() && is_repo_row(#[trigger] ls[k]) implies {
        let l = ls[k];
        &&& ends_with(lower(l), d) ==> exists|j: int|
            0 <= j < listed.len() && (#[trigger] listed[j]).id == words(l)[0] && !listed[j].enabled
        &&& ends_with(lower(l), e) ==> exists|j: int|
            0 <= j < listed.len() && (#[trigger] listed[j]).id == words(l)[0] && listed[j].enabled
    } by {
        let l = ls[k];
        if ends_with(lower(l), d) {
            lemma_row_parts(l, d);
            let r = repo_line(l).unwrap();
            assert(repo_line(l) == Some(r));
            assert(!r.enabled && r.id == words(l)[0]);
            lemma_collect_complete(ls, repo_fn(), k, r);
        }
        if ends_with(lower(l), e) {
            lemma_row_parts(l, e);
            let rest = lower(trim(split_first_ws(l).1));
            if ends_with(rest, d) {
                assert(rest[rest.len() - 7] == e[0]);
                assert(rest[rest.len() - 7] == d[1]);
            }
            let r = repo_line(l).unwrap();
            assert(repo_line(l) == Some(r));
            assert(r.enabled && r.id == words(l)[0]);
            lemma_collect_complete(ls, repo_fn(), k, r);
        }
    }
}

fn strip_arch_exec(s: &[char]) -> (r: Vec<char>)
    ensures
        r@ == strip_arch(s@),
{
    let parts = split_on(s, '.');
    proof { crate::text::lemma_split_nonempty(s@, '.'); }
    assert(parts@[0]@ == split_char(s@, '.')[0]);
    let n = parts[0].len();
    slice_chars(parts[0].as_slice(), 0, n)
}

fn search_line_exec(probe_lines: &Vec<Vec<char>>, l: &[char]) -> (r: Option<PackageInfo>)
    requires
        exists|p: Seq<char>| seqs_of(probe_lines@) == lines(p),
    ensures
        forall|p: Seq<char>| seqs_of(probe_lines@) == lines(p) ==>
            match (r, search_line(p, l@)) {
                (Some(x), Some(y)) => x@ == y,
                (None, None) => true,
                _ => false,
            },
{
    let sep = chars_of(" : ");
    match split_once_str(l, sep.as_slice()) {
        Some((name_arch, d)) => {
            let bare = strip_arch_exec(name_arch.as_slice());
            let name = trim_chars(bare.as_slice());
            if name.len() == 0 {
                return None;
            }
            let desc = trim_chars(d.as_slice());
            let installed = listed_exec(probe_lines, name.as_slice());
            let empty: Vec<char> = Vec::new();
            Some(PackageInfo::from_chars(name.as_slice(), empty.as_slice(), desc.as_slice(), installed))
        },
        None => None,
    }
}

fn installed_line_exec(l: &[char]) -> (r: Option<PackageInfo>)
    ensures
        match (r, installed_line(l@)) {
            (Some(x), Some(y)) => x@ == y,
            (None, None) => true,
            _ => false,
        },
{
    let header = chars_of("Installed Packages");
    let t = trim_chars(l);
    if has_prefix(l, header.as_slice()) || t.len() == 0 {
        return None;
    }
    let cols = split_words(l);
    if cols.len() < 2 {
        return None;
    }
    assert(cols@[0]@ == words(l@)[0]);
    assert(cols@[1]@ == words(l@)[1]);
    let name = strip_arch_exec(cols[0].as_slice());
    let empty: Vec<char> = Vec::new();
    let desc = if cols.len() > 2 {
        assert(cols@[2]@ == words(l@)[2]);
        cols[2].as_slice()
    } else {
        empty.as_slice()
    };
    Some(PackageInfo::from_chars(name.as_slice(), cols[1].as_slice(), desc, true))
}

fn repo_line_exec(l: &[char]) -> (r: Option<RepoInfo>)
    ensures
        match (r, repo_line(l@)) {
            (Some(x), Some(y)) => x@ == y,
            (None, None) => true,
            _ => false,
        },
{
    let header = chars_of("repo id");
    let t = trim_chars(l);
    if has_prefix(l, header.as_slice()) || t.len() == 0 {
        return None;
    }
    let n = l.len();
    let mut k: usize = 0;
    while k < n && !is_whitespace(l[k])
        invariant
            k <= n == l@.len(),
            ws_from(l@, 0) == ws_from(l@, k as int),
        decreases n - k,
    {
        k += 1;
    }
    let first;
    let second;
    if k >= n {
        first = slice_chars(l, 0, n);
        second = Vec::new();
        assert(first@ =~= l@);
    } else {
        first = slice_chars(l, 0, k);
        second = slice_chars(l, k + 1, n);
        assert(first@ =~= l@.take(k as int));
        assert(second@ =~= l@.skip(k + 1));
    }
    assert(second@ == split_first_ws(l@).1);
    let id = trim_chars(first.as_slice());
    let rest = trim_chars(second.as_slice());
    let disabled = chars_of("disabled");
    let enabled_word = chars_of("enabled");
    let mut low: Vec<char> = Vec::new();
    let mut i: usize = 0;
    while i < rest.len()
        invariant
            i <= rest@.len(),
            low@ == lower(rest@.take(i as int)),
        decreases rest@.len() - i,
    {
        low.push(crate::text::to_ascii_lower(rest[i]));
        i += 1;
        assert(low@ =~= lower(rest@.take(i as int)));
    }
    assert(rest@.take(rest@.len() as int) =~= rest@);
    proof {
        reveal_strlit("disabled");
        reveal_strlit("enabled");
    }
    let enabled = !has_suffix(low.as_slice(), disabled.as_slice());
    let a = trim_end_str_chars(rest.as_slice(), disabled.as_slice());
    let b = trim_end_str_chars(a.as_slice(), enabled_word.as_slice());
    let name = trim_chars(b.as_slice());
    Some(RepoInfo::from_chars(id.as_slice(), name.as_slice(), id.as_slice(), enabled))
}

/// The packages in the output of `dnf -q search`, each marked installed when
/// some line of the probe (`dnf -q list installed`) starts with its name.
pub fn parse_search_output(out: &str, probe: &str) -> (r: Vec<PackageInfo>)
    ensures
        packages_view(r@) == search_results(out@, probe@),
{
    let pt = chars_of(probe);
    let probe_lines = split_lines(pt.as_slice());
    let t = chars_of(out);
    let ls = split_lines(t.as_slice());
    let ghost lv = lines(out@);
    let ghost f = search_fn(probe@);
    let mut r: Vec<PackageInfo> = Vec::new();
    let mut i: usize = 0;
    assert(packages_view(r@) =~= collect(lv.take(0), f));
    while i < ls.len()
        invariant
            i <= ls@.len(),
            seqs_of(ls@) == lv,
            seqs_of(probe_lines@) == lines(probe@),
            f == search_fn(probe@),
            packages_view(r@) == collect(lv.take(i as int), f),
        decreases ls@.len() - i,
    {
        proof { lemma_collect_step(lv, f, i as int); }
        assert(ls@[i as int]@ == lv[i as int]);
        match search_line_exec(&probe_lines, ls[i].as_slice()) {
            Some(x) => {
                let ghost before = r@;
                let ghost xv = x@;
                r.push(x);
                assert(packages_view(r@) =~= packages_view(before).push(xv));
            },
            None => {},
        }
        i += 1;
    }
    proof { lemma_take_all(lv); }
    r
}

/// The packages in the output of `dnf -q list installed`.
pub fn parse_installed_output(out: &str) -> (r: Vec<PackageInfo>)
    ensures
        packages_view(r@) == installed_results(out@),
{
    let t = chars_of(out);
    let ls = split_lines(t.as_slice());
    let ghost lv = lines(out@);
    let mut r: Vec<PackageInfo> = Vec::new();
    let mut i: usize = 0;
    assert(packages_view(r@) =~= collect(lv.take(0), installed_fn()));
    while i < ls.len()
        invariant
            i <= ls@.len(),
            seqs_of(ls@) == lv,
            packages_view(r@) == collect(lv.take(i as int), installed_fn()),
        decreases ls@.len() - i,
    {
        proof { lemma_collect_step(lv, installed_fn(), i as int); }
        assert(ls@[i as int]@ == lv[i as int]);
        match installed_line_exec(ls[i].as_slice()) {
            Some(x) => {
                let ghost before = r@;
                let ghost xv = x@;
                r.push(x);
                assert(packages_view(r@) =~= packages_view(before).push(xv));
            },
            None => {},
        }
        i += 1;
    }
    proof { lemma_take_all(lv); }
    r
}

/// The repositories in the output of `dnf -q repolist --all`.
pub fn parse_repo_output(text: &str) -> (r: Vec<RepoInfo>)
    ensures
        repos_view(r@) == repo_results(text@),
{
    let t = chars_of(text);
    let ls = split_lines(t.as_slice());
    let ghost lv = lines(text@);
    let mut r: Vec<RepoInfo> = Vec::new();
    let mut i: usize = 0;
    assert(repos_view(r@) =~= collect(lv.take(0), repo_fn()));
    while i < ls.len()
        invariant
            i <= ls@.len(),
            seqs_of(ls@) == lv,
            repos_view(r@) == collect(lv.take(i as int), repo_fn()),
        decreases ls@.len() - i,
    {
        proof { lemma_collect_step(lv, repo_fn(), i as int); }
        assert(ls@[i as int]@ == lv[i as int]);
        match repo_line_exec(ls[i].as_slice()) {
            Some(x) => {
                let ghost before = r@;
                let ghost xv = x@;
                r.push(x);
                assert(repos_view(r@) =~= repos_view(before).push(xv));
            },
            None => {},
        }
        i += 1;
    }
    proof { lemma_take_all(lv); }
    r
}


impl PackageManager for Dnf {
    open spec fn name_spec(&self) -> Seq<char> {
        "DNF (Fedora/RHEL)"@
    }

    open spec fn binary_spec(&self) -> Seq<char> {
        "dnf"@
    }

    open spec fn search_spec(&self, query: Seq<char>, system: bool) -> CommandView {
        command("dnf"@, seq!["-q"@, "search"@, query], false)
    }

    open spec fn probe_spec(&self, system: bool) -> Option<CommandView> {
        Some(command("dnf"@, seq!["-q"@, "list"@, "installed"@], false))
    }

    open spec fn search_results(&self, out: Seq<char>, probe: Seq<char>) -> Seq<PackageView> {
        search_results(out, probe)
    }

    open spec fn installed_spec(&self, system: bool) -> CommandView {
        command("dnf"@, seq!["-q"@, "list"@, "installed"@], false)
    }

    open spec fn installed_results(&self, out: Seq<char>) -> Seq<PackageView> {
        installed_results(out)
    }

    open spec fn install_spec(&self, pkg: Seq<char>, system: bool) -> CommandView {
        command("dnf"@, seq!["install"@, "-y"@, pkg], true)
    }

    open spec fn remove_spec(&self, pkg: Seq<char>, system: bool) -> CommandView {
        command("dnf"@, seq!["remove"@, "-y"@, pkg], true)
    }

    open spec fn update_index_spec(&self, system: bool) -> CommandView {
        command("dnf"@, seq!["makecache"@], true)
    }

    open spec fn upgrade_all_spec(&self, system: bool) -> CommandView {
        command("dnf"@, seq!["upgrade"@, "-y"@], true)
    }

    open spec fn repo_source_spec(&self, system: bool) -> RepoSourceView {
        RepoSourceView::Command(command("dnf"@, seq!["-q"@, "repolist"@, "--all"@], false))
    }

    open spec fn repo_results(&self, origin: Seq<char>, text: Seq<char>) -> Seq<RepoView> {
        repo_results(text)
    }

    open spec fn add_repo_spec(&self, repo: Seq<char>, system: bool) -> CommandView {
        command("dnf"@, seq!["config-manager"@, "--add-repo"@, repo], true)
    }

    open spec fn remove_repo_spec(&self, repo_id: Seq<char>, system: bool) -> CommandView {
        command("dnf"@, seq!["config-manager"@, "--set-disabled"@, repo_id], true)
    }

    fn display_name(&self) -> (r: &'static str) {
        "DNF (Fedora/RHEL)"
    }

    fn binary(&self) -> (r: &'static str) {
        "dnf"
    }

    fn search_cmd(&self, query: &str, system: bool) -> (c: PmCommand) {
        PmCommand::new("dnf", &["-q", "search", query], false)
    }

    fn probe_cmd(&self, system: bool) -> (c: Option<PmCommand>) {
        Some(PmCommand::new("dnf", &["-q", "list", "installed"], false))
    }

    fn parse_search(&self, out: &str, probe: &str) -> (r: Vec<PackageInfo>) {
        parse_search_output(out, probe)
    }

    fn list_installed_cmd(&self, system: bool) -> (c: PmCommand) {
        PmCommand::new("dnf", &["-q", "list", "installed"], false)
    }

    fn parse_installed(&self, out: &str) -> (r: Vec<PackageInfo>) {
        parse_installed_output(out)
    }

    fn install_cmd(&self, pkg: &str, system: bool) -> (c: PmCommand) {
        PmCommand::new("dnf", &["install", "-y", pkg], true)
    }

    fn remove_cmd(&self, pkg: &str, system: bool) -> (c: PmCommand) {
        PmCommand::new("dnf", &["remove", "-y", pkg], true)
    }

    fn update_index_cmd(&self, system: bool) -> (c: PmCommand) {
        PmCommand::new("dnf", &["makecache"], true)
    }

    fn upgrade_all_cmd(&self, system: bool) -> (c: PmCommand) {
        PmCommand::new("dnf", &["upgrade", "-y"], true)
    }

    fn repo_source(&self, system: bool) -> (r: RepoSource) {
        RepoSource::Command(PmCommand::new("dnf", &["-q", "repolist", "--all"], false))
    }

    fn parse_repos(&self, origin: &str, text: &str) -> (r: Vec<RepoInfo>) {
        parse_repo_output(text)
    }

    fn add_repo_cmd(&self, repo: &str, system: bool) -> (c: PmCommand) {
        PmCommand::new("dnf", &["config-manager", "--add-repo", repo], true)
    }

    fn remove_repo_cmd(&self, repo_id: &str, system: bool) -> (c: PmCommand) {
        // Disabling rather than deleting the .repo file: reversible, and
        // avoids guessing which file on disk owns this repo id.
        PmCommand::new("dnf", &["config-manager", "--set-disabled", repo_id], true)
    }
}

} // verus!
