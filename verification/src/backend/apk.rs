//! Alpine: apk, with `/etc/apk/repositories` for the repositories.
use vstd::prelude::*;
use crate::text::{
    chars_of, has_prefix, lines, push_str, rfind, rfind_char, seqs_of,
    slice_chars, split_lines, split_once, split_once_str, starts_with, trim,
    trim_chars, trim_start_char, trim_start_char_chars,
};
use super::{
    collect, command, contains_chars, lemma_collect_step, lemma_take_all, packages_view, pkg,
    repo, repos_view, shell_quote, shell_quote_spec, CommandView, PackageInfo, PackageManager,
    PackageView, PmCommand, RepoInfo, RepoSource, RepoSourceView, RepoView,
};

verus! {

pub struct Apk;

/// The bare name in "name-version-rrev": what precedes the second-to-last
/// '-', or the whole text when it has fewer than two.
pub open spec fn bare_name(name_ver: Seq<char>) -> Seq<char> {
    match rfind(name_ver, '-') {
        Some(i) => match rfind(name_ver.take(i), '-') {
            Some(j) => name_ver.take(j),
            None => name_ver,
        },
        None => name_ver,
    }
}

/// A line of `apk search -v` / `apk info -v`: "name-1.2.3-r0 - description",
/// as the package's bare name and its description.
pub open spec fn entry(raw: Seq<char>) -> Option<(Seq<char>, Seq<char>)> {
    let line = trim(raw);
    if line.len() == 0 {
        None
    } else {
        match split_once(line, " - "@) {
            Some((name_ver, desc)) => Some((bare_name(name_ver), desc)),
            None => Some((bare_name(line), Seq::empty())),
        }
    }
}

pub open spec fn listing_fn(installed: bool) -> spec_fn(int, Seq<char>) -> Option<PackageView> {
    |i: int, l: Seq<char>| match entry(l) {
        Some((n, d)) => Some(pkg(n, Seq::empty(), d, installed)),
        None => None,
    }
}

/// The packages of a verbose listing, all marked `installed`.
pub open spec fn listing(out: Seq<char>, installed: bool) -> Seq<PackageView> {
    collect(lines(out), listing_fn(installed))
}

pub open spec fn name_fn() -> spec_fn(int, Seq<char>) -> Option<Seq<char>> {
    |i: int, l: Seq<char>| match entry(l) {
        Some((n, d)) => Some(n),
        None => None,
    }
}

/// The names of the packages in a verbose listing.
pub open spec fn listing_names(out: Seq<char>) -> Seq<Seq<char>> {
    collect(lines(out), name_fn())
}

pub open spec fn search_fn(names: Seq<Seq<char>>) -> spec_fn(int, Seq<char>) -> Option<PackageView> {
    |i: int, l: Seq<char>| match entry(l) {
        Some((n, d)) => Some(pkg(n, Seq::empty(), d, names.contains(n))),
        None => None,
    }
}

/// The packages of `apk search -v` output, each marked installed when `apk
/// info -v` (the probe) lists its name.
pub open spec fn search_results(out: Seq<char>, probe: Seq<char>) -> Seq<PackageView> {
    collect(lines(out), search_fn(listing_names(probe)))
}

/// A line of `/etc/apk/repositories`: a URL, disabled when commented out.
/// The file has no separate alias, so the URL is also the repository's id
/// (the text `remove_repo_cmd` filters the file by) and its name.
pub open spec fn repo_line(raw: Seq<char>) -> Option<RepoView> {
    let line = trim(raw);
    let url = trim(trim_start_char(line, '#'));
    if line.len() == 0 {
        None
    } else {
        Some(repo(url, url, url, !starts_with(line, "#"@)))
    }
}

pub open spec fn repo_fn() -> spec_fn(int, Seq<char>) -> Option<RepoView> {
    |i: int, l: Seq<char>| repo_line(l)
}

pub open spec fn repo_results(text: Seq<char>) -> Seq<RepoView> {
    collect(lines(text), repo_fn())
}

pub open spec fn add_repo_script(repo: Seq<char>) -> Seq<char> {
    "echo "@ + shell_quote_spec(repo) + " >> /etc/apk/repositories"@
}

pub open spec fn remove_repo_script(repo_id: Seq<char>) -> Seq<char> {
    "grep -vF "@ + shell_quote_spec(repo_id)
        + " /etc/apk/repositories > /tmp/apk.repos.new && mv /tmp/apk.repos.new /etc/apk/repositories"@
}

fn bare_name_exec(v: &[char]) -> (r: Vec<char>)
    ensures
        r@ == bare_name(v@),
{
    let n = v.len();
    match rfind_char(v, '-') {
        Some(i) => {
            let head = slice_chars(v, 0, i);
            assert(head@ =~= v@.take(i as int));
            match rfind_char(head.as_slice(), '-') {
                Some(j) => {
                    assert(v@.subrange(0, j as int) =~= v@.take(j as int));
                    slice_chars(v, 0, j)
                },
                None => {
                    assert(v@.subrange(0, n as int) =~= v@);
                    slice_chars(v, 0, n)
                },
            }
        },
        None => {
            assert(v@.subrange(0, n as int) =~= v@);
            slice_chars(v, 0, n)
        },
    }
}

fn entry_exec(raw: &[char]) -> (r: Option<(Vec<char>, Vec<char>)>)
    ensures
        match (r, entry(raw@)) {
            (Some(x), Some(y)) => x.0@ == y.0 && x.1@ == y.1,
            (None, None) => true,
            _ => false,
        },
{
    let line = trim_chars(raw);
    if line.len() == 0 {
        return None;
    }
    let sep = chars_of(" - ");
    match split_once_str(line.as_slice(), sep.as_slice()) {
        Some((name_ver, desc)) => Some((bare_name_exec(name_ver.as_slice()), desc)),
        None => Some((bare_name_exec(line.as_slice()), Vec::new())),
    }
}

/// The packages of a verbose listing ("name-version-rrev - description" per
/// line), all marked `installed`.
pub fn parse_verbose_listing(out: &str, installed: bool) -> (r: Vec<PackageInfo>)
    ensures
        packages_view(r@) == listing(out@, installed),
{
    let t = chars_of(out);
    let ls = split_lines(t.as_slice());
    let ghost lv = lines(out@);
    let ghost f = listing_fn(installed);
    let mut r: Vec<PackageInfo> = Vec::new();
    let mut i: usize = 0;
    assert(packages_view(r@) =~= collect(lv.take(0), f));
    while i < ls.len()
        invariant
            i <= ls@.len(),
            seqs_of(ls@) == lv,
            f == listing_fn(installed),
            packages_view(r@) == collect(lv.take(i as int), f),
        decreases ls@.len() - i,
    {
        proof { lemma_collect_step(lv, f, i as int); }
        assert(ls@[i as int]@ == lv[i as int]);
        match entry_exec(ls[i].as_slice()) {
            Some((n, d)) => {
                let empty: Vec<char> = Vec::new();
                let x = PackageInfo::from_chars(n.as_slice(), empty.as_slice(), d.as_slice(), installed);
                let ghost before = r@;
                let ghost xv = x@;
                r.push(x);
                assert(packages_view(r@) =~= packages_view(before).push(xv));
            },
            None => {},
        }
        i += 1;
    }
    proof { lemma_take_all(lv); }
    r
}

fn listing_names_exec(out: &str) -> (r: Vec<Vec<char>>)
    ensures
        seqs_of(r@) == listing_names(out@),
{
    let t = chars_of(out);
    let ls = split_lines(t.as_slice());
    let ghost lv = lines(out@);
    let mut r: Vec<Vec<char>> = Vec::new();
    let mut i: usize = 0;
    assert(seqs_of(r@) =~= collect(lv.take(0), name_fn()));
    while i < ls.len()
        invariant
            i <= ls@.len(),
            seqs_of(ls@) == lv,
            seqs_of(r@) == collect(lv.take(i as int), name_fn()),
        decreases ls@.len() - i,
    {
        proof { lemma_collect_step(lv, name_fn(), i as int); }
        assert(ls@[i as int]@ == lv[i as int]);
        match entry_exec(ls[i].as_slice()) {
            Some((n, d)) => {
                let ghost before = r@;
                let ghost nv = n@;
                r.push(n);
                assert(seqs_of(r@) =~= seqs_of(before).push(nv));
            },
            None => {},
        }
        i += 1;
    }
    proof { lemma_take_all(lv); }
    r
}

/// The packages of `apk search -v` output, each marked installed when the
/// probe (`apk info -v`) lists its name.
pub fn parse_search_output(out: &str, probe: &str) -> (r: Vec<PackageInfo>)
    ensures
        packages_view(r@) == search_results(out@, probe@),
{
    let names = listing_names_exec(probe);
    let t = chars_of(out);
    let ls = split_lines(t.as_slice());
    let ghost lv = lines(out@);
    let ghost f = search_fn(listing_names(probe@));
    let mut r: Vec<PackageInfo> = Vec::new();
    let mut i: usize = 0;
    assert(packages_view(r@) =~= collect(lv.take(0), f));
    while i < ls.len()
        invariant
            i <= ls@.len(),
            seqs_of(ls@) == lv,
            seqs_of(names@) == listing_names(probe@),
            f == search_fn(listing_names(probe@)),
            packages_view(r@) == collect(lv.take(i as int), f),
        decreases ls@.len() - i,
    {
        proof { lemma_collect_step(lv, f, i as int); }
        assert(ls@[i as int]@ == lv[i as int]);
        match entry_exec(ls[i].as_slice()) {
            Some((n, d)) => {
                let installed = contains_chars(&names, n.as_slice());
                let empty: Vec<char> = Vec::new();
                let x = PackageInfo::from_chars(n.as_slice(), empty.as_slice(), d.as_slice(), installed);
                let ghost before = r@;
                let ghost xv = x@;
                r.push(x);
                assert(packages_view(r@) =~= packages_view(before).push(xv));
            },
            None => {},
        }
        i += 1;
    }
    proof { lemma_take_all(lv); }
    r
}

fn repo_line_exec(raw: &[char]) -> (r: Option<RepoInfo>)
    ensures
        match (r, repo_line(raw@)) {
            (Some(x), Some(y)) => x@ == y,
            (None, None) => true,
            _ => false,
        },
{
    let line = trim_chars(raw);
    if line.len() == 0 {
        return None;
    }
    let hash = chars_of("#");
    let enabled = !has_prefix(line.as_slice(), hash.as_slice());
    let stripped = trim_start_char_chars(line.as_slice(), '#');
    let url = trim_chars(stripped.as_slice());
    Some(RepoInfo::from_chars(url.as_slice(), url.as_slice(), url.as_slice(), enabled))
}

/// The repositories of `/etc/apk/repositories`, each identified by its URL.
pub fn parse_repositories(text: &str) -> (r: Vec<RepoInfo>)
    ensures
        repos_view(r@) == repo_results(text@),
{
    let t = chars_of(text);
    let ls = split_lines(t.as_slice());
    let ghost lv = lines(text@);
    let mut r: Vec<RepoInfo> = Vec::new();
    let mut i: usize = 0;
    assert(repos_view(r@) =~= collect(lv.take(0), repo_fn()));
    while i < ls.len()
        invariant
            i <= ls@.len(),
            seqs_of(ls@) == lv,
            repos_view(r@) == collect(lv.take(i as int), repo_fn()),
        decreases ls@.len() - i,
    {
        proof { lemma_collect_step(lv, repo_fn(), i as int); }
        assert(ls@[i as int]@ == lv[i as int]);
        match repo_line_exec(ls[i].as_slice()) {
            Some(x) => {
                let ghost before = r@;
                let ghost xv = x@;
                r.push(x);
                assert(repos_view(r@) =~= repos_view(before).push(xv));
            },
            None => {},
        }
        i += 1;
    }
    proof { lemma_take_all(lv); }
    r
}

impl Apk {
    /// The command that appends the URL `repo` to `/etc/apk/repositories`.
    pub fn add_repo_command(repo: &str) -> (c: PmCommand)
        ensures
            c@ == command("sh"@, seq!["-c"@, add_repo_script(repo@)], true),
    {
        let mut s = String::new();
        push_str(&mut s, "echo ");
        let q = shell_quote(repo);
        push_str(&mut s, q.as_str());
        push_str(&mut s, " >> /etc/apk/repositories");
        assert(s@ =~= add_repo_script(repo@));
        PmCommand::new("sh", &["-c", s.as_str()], true)
    }

    /// The command that drops every line holding `repo_id` (the line's URL,
    /// as `list_repos` shows it) from `/etc/apk/repositories`.
    pub fn remove_repo_command(repo_id: &str) -> (c: PmCommand)
        ensures
            c@ == command("sh"@, seq!["-c"@, remove_repo_script(repo_id@)], true),
    {
        let mut s = String::new();
        push_str(&mut s, "grep -vF ");
        let q = shell_quote(repo_id);
        push_str(&mut s, q.as_str());
        push_str(&mut s, " /etc/apk/repositories > /tmp/apk.repos.new && mv /tmp/apk.repos.new /etc/apk/repositories");
        assert(s@ =~= remove_repo_script(repo_id@));
        PmCommand::new("sh", &["-c", s.as_str()], true)
    }
}

impl PackageManager for Apk {
    open spec fn name_spec(&self) -> Seq<char> {
        "APK (Alpine)"@
    }

    open spec fn binary_spec(&self) -> Seq<char> {
        "apk"@
    }

    open spec fn search_spec(&self, query: Seq<char>, system: bool) -> CommandView {
        command("apk"@, seq!["search"@, "-v"@, query], false)
    }

    open spec fn probe_spec(&self, system: bool) -> Option<CommandView> {
        Some(command("apk"@, seq!["info"@, "-v"@], false))
    }

    open spec fn search_results(&self, out: Seq<char>, probe: Seq<char>) -> Seq<PackageView> {
        search_results(out, probe)
    }

    open spec fn installed_spec(&self, system: bool) -> CommandView {
        command("apk"@, seq!["info"@, "-v"@], false)
    }

    open spec fn installed_results(&self, out: Seq<char>) -> Seq<PackageView> {
        listing(out, true)
    }

    open spec fn install_spec(&self, pkg: Seq<char>, system: bool) -> CommandView {
        command("apk"@, seq!["add"@, pkg], true)
    }

    open spec fn remove_spec(&self, pkg: Seq<char>, system: bool) -> CommandView {
        command("apk"@, seq!["del"@, pkg], true)
    }

    open spec fn update_index_spec(&self, system: bool) -> CommandView {
        command("apk"@, seq!["update"@], true)
    }

    open spec fn upgrade_all_spec(&self, system: bool) -> CommandView {
        command("apk"@, seq!["upgrade"@], true)
    }

    open spec fn repo_source_spec(&self, system: bool) -> RepoSourceView {
        RepoSourceView::File("/etc/apk/repositories"@)
    }

    open spec fn repo_results(&self, origin: Seq<char>, text: Seq<char>) -> Seq<RepoView> {
        repo_results(text)
    }

    open spec fn add_repo_spec(&self, repo: Seq<char>, system: bool) -> CommandView {
        command("sh"@, seq!["-c"@, add_repo_script(repo)], true)
    }

    open spec fn remove_repo_spec(&self, repo_id: Seq<char>, system: bool) -> CommandView {
        command("sh"@, seq!["-c"@, remove_repo_script(repo_id)], true)
    }

    fn display_name(&self) -> (r: &'static str) {
        "APK (Alpine)"
    }

    fn binary(&self) -> (r: &'static str) {
        "apk"
    }

    fn search_cmd(&self, query: &str, system: bool) -> (c: PmCommand) {
        PmCommand::new("apk", &["search", "-v", query], false)
    }

    fn probe_cmd(&self, system: bool) -> (c: Option<PmCommand>) {
        Some(PmCommand::new("apk", &["info", "-v"], false))
    }

    fn parse_search(&self, out: &str, probe: &str) -> (r: Vec<PackageInfo>) {
        parse_search_output(out, probe)
    }

    fn list_installed_cmd(&self, system: bool) -> (c: PmCommand) {
        PmCommand::new("apk", &["info", "-v"], false)
    }

    fn parse_installed(&self, out: &str) -> (r: Vec<PackageInfo>) {
        parse_verbose_listing(out, true)
    }

    fn install_cmd(&self, pkg: &str, system: bool) -> (c: PmCommand) {
        PmCommand::new("apk", &["add", pkg], true)
    }

    fn remove_cmd(&self, pkg: &str, system: bool) -> (c: PmCommand) {
        PmCommand::new("apk", &["del", pkg], true)
    }

    fn update_index_cmd(&self, system: bool) -> (c: PmCommand) {
        PmCommand::new("apk", &["update"], true)
    }

    fn upgrade_all_cmd(&self, system: bool) -> (c: PmCommand) {
        PmCommand::new("apk", &["upgrade"], true)
    }

    fn repo_source(&self, system: bool) -> (r: RepoSource) {
        RepoSource::File("/etc/apk/repositories".to_owned())
    }

    fn parse_repos(&self, origin: &str, text: &str) -> (r: Vec<RepoInfo>) {
        parse_repositories(text)
    }

    fn add_repo_cmd(&self, repo: &str, system: bool) -> (c: PmCommand) {
        Apk::add_repo_command(repo)
    }

    fn remove_repo_cmd(&self, repo_id: &str, system: bool) -> (c: PmCommand) {
        Apk::remove_repo_command(repo_id)
    }
}

} // verus!
