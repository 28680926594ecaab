//! Flatpak, modeled as just another backend: its "packages" are application
//! IDs and its "repos" are remotes (e.g. Flathub), so the same views drive it
//! with no special-casing. Every operation names its scope: `--user` unless
//! system-wide scope is asked for (or `SYSTEM_WIDE` is set), so that the
//! common case needs no root prompt.
use vstd::prelude::*;
use crate::text::{
    chars_of, eq_ignore_ascii_case, eq_ignore_case, lemma_split_nonempty, lines, seqs_of,
    slice_chars, split_char, split_lines, split_on, split_words, trim, trim_chars, words,
};
use super::{
    collect, command, lemma_collect_step, lemma_take_all, packages_view, pkg, repo, repos_view,
    same_chars, CommandView, PackageInfo, PackageManager, PackageView, PmCommand, RepoInfo,
    RepoSource, RepoSourceView, RepoView,
};

verus! {

pub struct Flatpak;

/// Manage system-wide flatpaks whatever scope is asked for (this then needs
/// root).
pub const SYSTEM_WIDE: bool = false;

pub open spec fn scope_spec(system: bool) -> Seq<char> {
    if system || SYSTEM_WIDE { "--system"@ } else { "--user"@ }
}

/// The scope flag every flatpak command carries.
pub fn scope_flag(system: bool) -> (r: &'static str)
    ensures
        r@ == scope_spec(system),
{
    if system || SYSTEM_WIDE { "--system" } else { "--user" }
}

/// The `n`th tab-separated column of `l`, or nothing.
pub open spec fn cell(l: Seq<char>, n: int) -> Seq<char> {
    if n < split_char(l, '\t').len() {
        split_char(l, '\t')[n]
    } else {
        Seq::empty()
    }
}

/// Some line of `probe` is, trimmed, exactly `app_id`.
pub open spec fn listed_app(probe: Seq<char>, app_id: Seq<char>) -> bool {
    exists|k: int| 0 <= k < lines(probe).len() && trim(#[trigger] lines(probe)[k]) == app_id
}

/// A line of `flatpak search --columns=name,description,application`.
pub open spec fn search_line(probe: Seq<char>, l: Seq<char>) -> Option<PackageView> {
    let app_id = trim(cell(l, 2));
    if split_char(l, '\t').len() < 3 || app_id.len() == 0 || eq_ignore_case(app_id, "application id"@) {
        None
    } else {
        // The display name goes in the version column, as the view shows it.
        Some(pkg(app_id, trim(cell(l, 0)), trim(cell(l, 1)), listed_app(probe, app_id)))
    }
}

pub open spec fn search_fn(probe: Seq<char>) -> spec_fn(int, Seq<char>) -> Option<PackageView> {
    |i: int, l: Seq<char>| search_line(probe, l)
}

pub open spec fn search_results(out: Seq<char>, probe: Seq<char>) -> Seq<PackageView> {
    collect(lines(out), search_fn(probe))
}

/// A line of `flatpak list --app --columns=application,name,version`.
pub open spec fn installed_line(l: Seq<char>) -> Option<PackageView> {
    if trim(cell(l, 0)).len() == 0 {
        None
    } else {
        Some(pkg(trim(cell(l, 0)), trim(cell(l, 2)), trim(cell(l, 1)), true))
    }
}

pub open spec fn installed_fn() -> spec_fn(int, Seq<char>) -> Option<PackageView> {
    |i: int, l: Seq<char>| installed_line(l)
}

pub open spec fn installed_results(out: Seq<char>) -> Seq<PackageView> {
    collect(lines(out), installed_fn())
}

/// A line of `flatpak remotes --columns=name,url,title,disabled`; without a
/// title the name is shown, without the disabled column it is enabled.
pub open spec fn repo_line(l: Seq<char>) -> Option<RepoView> {
    let n = split_char(l, '\t').len();
    if trim(cell(l, 0)).len() == 0 {
        None
    } else {
        Some(repo(
            trim(cell(l, 0)),
            if n > 2 { trim(cell(l, 2)) } else { trim(cell(l, 0)) },
            trim(cell(l, 1)),
            if n > 3 { !eq_ignore_case(trim(cell(l, 3)), "true"@) } else { true },
        ))
    }
}

pub open spec fn repo_fn() -> spec_fn(int, Seq<char>) -> Option<RepoView> {
    |i: int, l: Seq<char>| repo_line(l)
}

pub open spec fn repo_results(text: Seq<char>) -> Seq<RepoView> {
    collect(lines(text), repo_fn())
}

/// The remote's name and URL in "<name> <url>", e.g. "flathub
/// https://flathub.org/repo/flathub.flatpakrepo"; "remote" when no name is
/// given, the whole text when no URL is.
pub open spec fn remote_name(repo: Seq<char>) -> Seq<char> {
    if words(repo).len() > 0 { words(repo)[0] } else { "remote"@ }
}

pub open spec fn remote_url(repo: Seq<char>) -> Seq<char> {
    if words(repo).len() > 1 { words(repo)[1] } else { repo }
}

fn cell_exec(parts: &Vec<Vec<char>>, n: usize) -> (r: Vec<char>)
    ensures
        n < parts@.len() ==> r@ == parts@[n as int]@,
        n >= parts@.len() ==> r@ == Seq::<char>::empty(),
{
    if n < parts.len() {
        let m = parts[n].len();
        slice_chars(parts[n].as_slice(), 0, m)
    } else {
        Vec::new()
    }
}

fn cells(l: &[char]) -> (r: (Vec<Vec<char>>, Vec<char>, Vec<char>, Vec<char>, Vec<char>))
    ensures
        seqs_of(r.0@) == split_char(l@, '\t'),
        r.1@ == cell(l@, 0),
        r.2@ == cell(l@, 1),
        r.3@ == cell(l@, 2),
        r.4@ == cell(l@, 3),
{
    let parts = split_on(l, '\t');
    proof { lemma_split_nonempty(l@, '\t'); }
    let a = cell_exec(&parts, 0);
    let b = cell_exec(&parts, 1);
    let c = cell_exec(&parts, 2);
    let d = cell_exec(&parts, 3);
    assert(a@ == cell(l@, 0)) by { assert(parts@[0]@ == split_char(l@, '\t')[0]); }
    assert(b@ == cell(l@, 1)) by { if 1 < parts@.len() { assert(parts@[1]@ == split_char(l@, '\t')[1]); } }
    assert(c@ == cell(l@, 2)) by { if 2 < parts@.len() { assert(parts@[2]@ == split_char(l@, '\t')[2]); } }
    assert(d@ == cell(l@, 3)) by { if 3 < parts@.len() { assert(parts@[3]@ == split_char(l@, '\t')[3]); } }
    (parts, a, b, c, d)
}

fn listed_app_exec(probe_lines: &Vec<Vec<char>>, app_id: &[char]) -> (b: bool)
    ensures
        forall|p: Seq<char>| seqs_of(probe_lines@) == lines(p) ==> b == listed_app(p, app_id@),
{
    let mut i: usize = 0;
    while i < probe_lines.len()
        invariant
            i <= probe_lines@.len(),
            forall|k: int| 0 <= k < i ==> trim(#[trigger] probe_lines@[k]@) != app_id@,
        decreases probe_lines@.len() - i,
    {
        let t = trim_chars(probe_lines[i].as_slice());
        if same_chars(t.as_slice(), app_id) {
            assert forall|p: Seq<char>| seqs_of(probe_lines@) == lines(p) implies listed_app(p, app_id@) by {
                assert(lines(p)[i as int] == probe_lines@[i as int]@);
            }
            return true;
        }
        i += 1;
    }
    assert forall|p: Seq<char>| seqs_of(probe_lines@) == lines(p) implies !listed_app(p, app_id@) by {
        assert forall|k: int| 0 <= k < lines(p).len() implies trim(#[trigger] lines(p)[k]) != app_id@ by {
            assert(lines(p)[k] == probe_lines@[k]@);
        }
    }
    false
}

fn search_line_exec(probe_lines: &Vec<Vec<char>>, l: &[char]) -> (r: Option<PackageInfo>)
    ensures
        forall|p: Seq<char>| seqs_of(probe_lines@) == lines(p) ==>
            match (r, search_line(p, l@)) {
                (Some(x), Some(y)) => x@ == y,
                (None, None) => true,
                _ => false,
            },
{
    let (parts, c0, c1, c2, _c3) = cells(l);
    if parts.len() < 3 {
        return None;
    }
    let app_id = trim_chars(c2.as_slice());
    let header = chars_of("application id");
    if app_id.len() == 0 || eq_ignore_ascii_case(app_id.as_slice(), header.as_slice()) {
        return None;
    }
    let name = trim_chars(c0.as_slice());
    let desc = trim_chars(c1.as_slice());
    let installed = listed_app_exec(probe_lines, app_id.as_slice());
    Some(PackageInfo::from_chars(app_id.as_slice(), name.as_slice(), desc.as_slice(), installed))
}

fn installed_line_exec(l: &[char]) -> (r: Option<PackageInfo>)
    ensures
        match (r, installed_line(l@)) {
            (Some(x), Some(y)) => x@ == y,
            (None, None) => true,
            _ => false,
        },
{
    let (_parts, c0, c1, c2, _c3) = cells(l);
    let id = trim_chars(c0.as_slice());
    if id.len() == 0 {
        return None;
    }
    let version = trim_chars(c2.as_slice());
    let desc = trim_chars(c1.as_slice());
    Some(PackageInfo::from_chars(id.as_slice(), version.as_slice(), desc.as_slice(), true))
}

fn repo_line_exec(l: &[char]) -> (r: Option<RepoInfo>)
    ensures
        match (r, repo_line(l@)) {
            (Some(x), Some(y)) => x@ == y,
            (None, None) => true,
            _ => false,
        },
{
    let (parts, c0, c1, c2, c3) = cells(l);
    let id = trim_chars(c0.as_slice());
    if id.len() == 0 {
        return None;
    }
    let name = if parts.len() > 2 { trim_chars(c2.as_slice()) } else { trim_chars(c0.as_slice()) };
    let url = trim_chars(c1.as_slice());
    let enabled = if parts.len() > 3 {
        let t = trim_chars(c3.as_slice());
        let word = chars_of("true");
        !eq_ignore_ascii_case(t.as_slice(), word.as_slice())
    } else {
        true
    };
    Some(RepoInfo::from_chars(id.as_slice(), name.as_slice(), url.as_slice(), enabled))
}

/// The applications in `flatpak search` output, each marked installed when
/// some line of the probe (`flatpak list --app --columns=application`) is its
/// ID.
pub fn parse_search_output(out: &str, probe: &str) -> (r: Vec<PackageInfo>)
    ensures
        packages_view(r@) == search_results(out@, probe@),
{
    let pt = chars_of(probe);
    let probe_lines = split_lines(pt.as_slice());
    let t = chars_of(out);
    let ls = split_lines(t.as_slice());
    let ghost lv = lines(out@);
    let ghost f = search_fn(probe@);
    let mut r: Vec<PackageInfo> = Vec::new();
    let mut i: usize = 0;
    assert(packages_view(r@) =~= collect(lv.take(0), f));
    while i < ls.len()
        invariant
            i <= ls@.len(),
            seqs_of(ls@) == lv,
            seqs_of(probe_lines@) == lines(probe@),
            f == search_fn(probe@),
            packages_view(r@) == collect(lv.take(i as int), f),
        decreases ls@.len() - i,
    {
        proof { lemma_collect_step(lv, f, i as int); }
        assert(ls@[i as int]@ == lv[i as int]);
        match search_line_exec(&probe_lines, ls[i].as_slice()) {
            Some(x) => {
                let ghost before = r@;
                let ghost xv = x@;
                r.push(x);
                assert(packages_view(r@) =~= packages_view(before).push(xv));
            },
            None => {},
        }
        i += 1;
    }
    proof { lemma_take_all(lv); }
    r
}

/// The applications in `flatpak list --app --columns=application,name,version`
/// output.
pub fn parse_installed_output(out: &str) -> (r: Vec<PackageInfo>)
    ensures
        packages_view(r@) == installed_results(out@),
{
    let t = chars_of(out);
    let ls = split_lines(t.as_slice());
    let ghost lv = lines(out@);
    let mut r: Vec<PackageInfo> = Vec::new();
    let mut i: usize = 0;
    assert(packages_view(r@) =~= collect(lv.take(0), installed_fn()));
    while i < ls.len()
        invariant
            i <= ls@.len(),
            seqs_of(ls@) == lv,
            packages_view(r@) == collect(lv.take(i as int), installed_fn()),
        decreases ls@.len() - i,
    {
        proof { lemma_collect_step(lv, installed_fn(), i as int); }
        assert(ls@[i as int]@ == lv[i as int]);
        match installed_line_exec(ls[i].as_slice()) {
            Some(x) => {
                let ghost before = r@;
                let ghost xv = x@;
                r.push(x);
                assert(packages_view(r@) =~= packages_view(before).push(xv));
            },
            None => {},
        }
        i += 1;
    }
    proof { lemma_take_all(lv); }
    r
}

/// The remotes in `flatpak remotes --columns=name,url,title[,disabled]`
/// output.
pub fn parse_remotes_output(text: &str) -> (r: Vec<RepoInfo>)
    ensures
        repos_view(r@) == repo_results(text@),
{
    let t = chars_of(text);
    let ls = split_lines(t.as_slice());
    let ghost lv = lines(text@);
    let mut r: Vec<RepoInfo> = Vec::new();
    let mut i: usize = 0;
    assert(repos_view(r@) =~= collect(lv.take(0), repo_fn()));
    while i < ls.len()
        invariant
            i <= ls@.len(),
            seqs_of(ls@) == lv,
            repos_view(r@) == collect(lv.take(i as int), repo_fn()),
        decreases ls@.len() - i,
    {
        proof { lemma_collect_step(lv, repo_fn(), i as int); }
        assert(ls@[i as int]@ == lv[i as int]);
        match repo_line_exec(ls[i].as_slice()) {
            Some(x) => {
                let ghost before = r@;
                let ghost xv = x@;
                r.push(x);
                assert(repos_view(r@) =~= repos_view(before).push(xv));
            },
            None => {},
        }
        i += 1;
    }
    proof { lemma_take_all(lv); }
    r
}

impl Flatpak {
    /// `flatpak list` of the applications (with name and version) in the
    /// given scope; `needs_root` as the caller asks.
    pub fn list_apps_command(system: bool, needs_root: bool) -> (c: PmCommand)
        ensures
            c@ == command(
                "flatpak"@,
                seq!["list"@, scope_spec(system), "--app"@, "--columns=application,name,version"@],
                needs_root,
            ),
    {
        PmCommand::new("flatpak", &["list", scope_flag(system), "--app", "--columns=application,name,version"], needs_root)
    }

    /// `flatpak remotes` (name, URL and title) in the given scope.
    pub fn list_remotes_command(system: bool, needs_root: bool) -> (c: PmCommand)
        ensures
            c@ == command("flatpak"@, seq!["remotes"@, scope_spec(system), "--columns=name,url,title"@], needs_root),
    {
        PmCommand::new("flatpak", &["remotes", scope_flag(system), "--columns=name,url,title"], needs_root)
    }
}

impl PackageManager for Flatpak {
    open spec fn name_spec(&self) -> Seq<char> {
        "Flatpak"@
    }

    open spec fn binary_spec(&self) -> Seq<char> {
        "flatpak"@
    }

    open spec fn search_spec(&self, query: Seq<char>, system: bool) -> CommandView {
        command("flatpak"@, seq!["search"@, "--columns=name,description,application"@, query], false)
    }

    open spec fn probe_spec(&self, system: bool) -> Option<CommandView> {
        Some(command("flatpak"@, seq!["list"@, scope_spec(system), "--app"@, "--columns=application"@], false))
    }

    open spec fn search_results(&self, out: Seq<char>, probe: Seq<char>) -> Seq<PackageView> {
        search_results(out, probe)
    }

    open spec fn installed_spec(&self, system: bool) -> CommandView {
        command(
            "flatpak"@,
            seq!["list"@, scope_spec(system), "--app"@, "--columns=application,name,version"@],
            false,
        )
    }

    open spec fn installed_results(&self, out: Seq<char>) -> Seq<PackageView> {
        installed_results(out)
    }

    open spec fn install_spec(&self, pkg: Seq<char>, system: bool) -> CommandView {
        command("flatpak"@, seq!["install"@, scope_spec(system), "-y"@, "--or-update"@, pkg], false)
    }

    open spec fn remove_spec(&self, pkg: Seq<char>, system: bool) -> CommandView {
        command("flatpak"@, seq!["uninstall"@, scope_spec(system), "-y"@, pkg], false)
    }

    open spec fn update_index_spec(&self, system: bool) -> CommandView {
        command("flatpak"@, seq!["update"@, scope_spec(system), "--appstream"@, "-y"@], false)
    }

    open spec fn upgrade_all_spec(&self, system: bool) -> CommandView {
        command("flatpak"@, seq!["update"@, scope_spec(system), "-y"@], false)
    }

    open spec fn repo_source_spec(&self, system: bool) -> RepoSourceView {
        RepoSourceView::Command(
            command("flatpak"@, seq!["remotes"@, scope_spec(system), "--columns=name,url,title,disabled"@], false),
        )
    }

    open spec fn repo_results(&self, origin: Seq<char>, text: Seq<char>) -> Seq<RepoView> {
        repo_results(text)
    }

    open spec fn add_repo_spec(&self, repo: Seq<char>, system: bool) -> CommandView {
        command(
            "flatpak"@,
            seq!["remote-add"@, scope_spec(system), "--if-not-exists"@, remote_name(repo), remote_url(repo)],
            false,
        )
    }

    open spec fn remove_repo_spec(&self, repo_id: Seq<char>, system: bool) -> CommandView {
        command("flatpak"@, seq!["remote-delete"@, scope_spec(system), repo_id], false)
    }

    fn display_name(&self) -> (r: &'static str) {
        "Flatpak"
    }

    fn binary(&self) -> (r: &'static str) {
        "flatpak"
    }

    fn search_cmd(&self, query: &str, system: bool) -> (c: PmCommand) {
        PmCommand::new("flatpak", &["search", "--columns=name,description,application", query], false)
    }

    fn probe_cmd(&self, system: bool) -> (c: Option<PmCommand>) {
        Some(PmCommand::new("flatpak", &["list", scope_flag(system), "--app", "--columns=application"], false))
    }

    fn parse_search(&self, out: &str, probe: &str) -> (r: Vec<PackageInfo>) {
        parse_search_output(out, probe)
    }

    fn list_installed_cmd(&self, system: bool) -> (c: PmCommand) {
        Flatpak::list_apps_command(system, false)
    }

    fn parse_installed(&self, out: &str) -> (r: Vec<PackageInfo>) {
        parse_installed_output(out)
    }

    fn install_cmd(&self, pkg: &str, system: bool) -> (c: PmCommand) {
        PmCommand::new("flatpak", &["install", scope_flag(system), "-y", "--or-update", pkg], false)
    }

    fn remove_cmd(&self, pkg: &str, system: bool) -> (c: PmCommand) {
        PmCommand::new("flatpak", &["uninstall", scope_flag(system), "-y", pkg], false)
    }

    fn update_index_cmd(&self, system: bool) -> (c: PmCommand) {
        PmCommand::new("flatpak", &["update", scope_flag(system), "--appstream", "-y"], false)
    }

    fn upgrade_all_cmd(&self, system: bool) -> (c: PmCommand) {
        PmCommand::new("flatpak", &["update", scope_flag(system), "-y"], false)
    }

    fn repo_source(&self, system: bool) -> (r: RepoSource) {
        RepoSource::Command(
            PmCommand::new("flatpak", &["remotes", scope_flag(system), "--columns=name,url,title,disabled"], false),
        )
    }

    fn parse_repos(&self, origin: &str, text: &str) -> (r: Vec<RepoInfo>) {
        parse_remotes_output(text)
    }

    fn add_repo_cmd(&self, repo: &str, system: bool) -> (c: PmCommand) {
        let v = chars_of(repo);
        let parts = split_words(v.as_slice());
        let name = if parts.len() > 0 {
            assert(parts@[0]@ == words(repo@)[0]);
            crate::text::string_of(parts[0].as_slice())
        } else {
            "remote".to_owned()
        };
        let url = if parts.len() > 1 {
            assert(parts@[1]@ == words(repo@)[1]);
            crate::text::string_of(parts[1].as_slice())
        } else {
            repo.to_owned()
        };
        PmCommand::new(
            "flatpak",
            &["remote-add", scope_flag(system), "--if-not-exists", name.as_str(), url.as_str()],
            false,
        )
    }

    fn remove_repo_cmd(&self, repo_id: &str, system: bool) -> (c: PmCommand) {
        PmCommand::new("flatpak", &["remote-delete", scope_flag(system), repo_id], false)
    }
}

} // verus!
