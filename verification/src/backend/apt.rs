//! Debian/Ubuntu: APT, with `dpkg-query` for what is installed and the
//! `sources.list` files for the repositories.
use vstd::prelude::*;
use crate::text::{
    chars_of, contains, contains_str, decimal, has_prefix, lines, push_chars, push_decimal,
    rfind, rfind_char, seqs_of, slice_chars, split_char, split_lines, split_on, split_once,
    split_once_str, starts_with, trim, trim_chars, trim_start_char, trim_start_char_chars,
};
use super::{
    collect, command, contains_chars, lemma_collect_step, lemma_take_all, packages_view, pkg,
    repo, repos_view, strings_view, CommandView, PackageInfo, PackageManager, PackageView,
    PmCommand, RepoInfo, RepoSource, RepoSourceView, RepoView,
};

verus! {

pub struct Apt;

/// The status `dpkg-query` gives a package that is installed.
pub open spec fn installed_marker() -> Seq<char> {
    "install ok installed"@
}

/// A line of `dpkg-query -W -f='${Package}\t${Status}\n'`: the package's
/// name when its status says it is installed.
pub open spec fn probe_line(l: Seq<char>) -> Option<Seq<char>> {
    let parts = split_char(l, '\t');
    if parts.len() >= 2 && contains(parts[1], installed_marker()) {
        Some(parts[0])
    } else {
        None
    }
}

pub open spec fn probe_fn() -> spec_fn(int, Seq<char>) -> Option<Seq<char>> {
    |i: int, l: Seq<char>| probe_line(l)
}

/// The installed packages' names in the probe's output.
pub open spec fn installed_names(probe: Seq<char>) -> Seq<Seq<char>> {
    collect(lines(probe), probe_fn())
}

/// A line of `apt-cache search`: "name - description".
pub open spec fn search_line(names: Seq<Seq<char>>, l: Seq<char>) -> Option<PackageView> {
    match split_once(l, " - "@) {
        Some((n, d)) => Some(pkg(trim(n), Seq::empty(), trim(d), names.contains(trim(n)))),
        None => None,
    }
}

pub open spec fn search_fn(names: Seq<Seq<char>>) -> spec_fn(int, Seq<char>) -> Option<PackageView> {
    |i: int, l: Seq<char>| search_line(names, l)
}

pub open spec fn search_results(out: Seq<char>, probe: Seq<char>) -> Seq<PackageView> {
    collect(lines(out), search_fn(installed_names(probe)))
}

/// A line of `dpkg-query -W -f='${Package}\t${Version}\t${Status}\t${binary:Summary}\n'`.
pub open spec fn installed_line(l: Seq<char>) -> Option<PackageView> {
    let parts = split_char(l, '\t');
    if parts.len() >= 3 && contains(parts[2], installed_marker()) {
        Some(pkg(parts[0], parts[1], if parts.len() > 3 { parts[3] } else { Seq::empty() }, true))
    } else {
        None
    }
}

pub open spec fn installed_fn() -> spec_fn(int, Seq<char>) -> Option<PackageView> {
    |i: int, l: Seq<char>| installed_line(l)
}

pub open spec fn installed_results(out: Seq<char>) -> Seq<PackageView> {
    collect(lines(out), installed_fn())
}

/// The last component of a path: what follows its last '/'.
pub open spec fn base_name(path: Seq<char>) -> Seq<char> {
    match rfind(path, '/') {
        Some(k) => path.skip(k + 1),
        None => path,
    }
}

/// Line `i` (counting from 0) of the sources file `file`: a `deb` or
/// `deb-src` entry, commented out (disabled) or not.
pub open spec fn source_line(file: Seq<char>, i: int, raw: Seq<char>) -> Option<RepoView> {
    let line = trim(raw);
    let body = trim(trim_start_char(line, '#'));
    if line.len() == 0 {
        None
    } else if starts_with(body, "deb "@) || starts_with(body, "deb-src "@) {
        Some(repo(file + ":"@ + decimal(i as nat), base_name(file), body, !starts_with(line, "#"@)))
    } else {
        None
    }
}

pub open spec fn source_fn(file: Seq<char>) -> spec_fn(int, Seq<char>) -> Option<RepoView> {
    |i: int, l: Seq<char>| source_line(file, i, l)
}

/// The repositories listed in the sources file `file` whose content is `text`.
pub open spec fn source_results(file: Seq<char>, text: Seq<char>) -> Seq<RepoView> {
    collect(lines(text), source_fn(file))
}

/// The main sources file.
pub open spec fn main_sources() -> Seq<char> {
    "/etc/apt/sources.list"@
}

/// Whether a path's file name has the extension "list" (`Path::extension`:
/// the part after the last '.', when something precedes that '.').
pub open spec fn is_list_file(path: Seq<char>) -> bool {
    let name = base_name(path);
    match rfind(name, '.') {
        Some(k) => k > 0 && name.skip(k + 1) == "list"@,
        None => false,
    }
}

pub open spec fn list_file_fn() -> spec_fn(int, Seq<char>) -> Option<Seq<char>> {
    |i: int, p: Seq<char>| if is_list_file(p) { Some(p) } else { None }
}

/// The files APT's repositories are read from: `sources.list`, then the
/// entries of `sources.list.d` that are `*.list` files, in the order given.
pub open spec fn source_files_spec(entries: Seq<Seq<char>>) -> Seq<Seq<char>> {
    seq![main_sources()] + collect(entries, list_file_fn())
}

fn base_name_exec(path: &[char]) -> (r: Vec<char>)
    ensures
        r@ == base_name(path@),
{
    let n = path.len();
    match rfind_char(path, '/') {
        Some(k) => {
            assert(path@.subrange(k + 1, path@.len() as int) =~= path@.skip(k + 1));
            slice_chars(path, k + 1, path.len())
        },
        None => {
            assert(path@.subrange(0, path@.len() as int) =~= path@);
            slice_chars(path, 0, path.len())
        },
    }
}

fn is_list_file_exec(path: &[char]) -> (b: bool)
    ensures
        b == is_list_file(path@),
{
    let name = base_name_exec(path);
    let n = name.len();
    match rfind_char(name.as_slice(), '.') {
        Some(k) => {
            let ext = slice_chars(name.as_slice(), k + 1, name.len());
            assert(name@.subrange(k + 1, name@.len() as int) =~= name@.skip(k + 1));
            let list = chars_of("list");
            k > 0 && super::same_chars(ext.as_slice(), list.as_slice())
        },
        None => false,
    }
}

impl Apt {
    /// The files to read APT's repositories from, given the paths of the
    /// entries of `/etc/apt/sources.list.d`.
    pub fn source_files(entries: &Vec<String>) -> (r: Vec<String>)
        ensures
            strings_view(r@) == source_files_spec(strings_view(entries@)),
    {
        let mut r: Vec<String> = Vec::new();
        r.push("/etc/apt/sources.list".to_owned());
        let ghost es = strings_view(entries@);
        let mut i: usize = 0;
        assert(strings_view(r@) =~= seq![main_sources()] + collect(es.take(0), list_file_fn()));
        while i < entries.len()
            invariant
                i <= entries@.len(),
                es == strings_view(entries@),
                strings_view(r@) == seq![main_sources()] + collect(es.take(i as int), list_file_fn()),
            decreases entries@.len() - i,
        {
            proof { lemma_collect_step(es, list_file_fn(), i as int); }
            let p = chars_of(entries[i].as_str());
            if is_list_file_exec(p.as_slice()) {
                let ghost before = r@;
                r.push(entries[i].clone());
                assert(strings_view(r@) =~= strings_view(before).push(es[i as int]));
            }
            i += 1;
        }
        proof { lemma_take_all(es); }
        r
    }
}

fn probe_line_exec(l: &[char]) -> (r: Option<Vec<char>>)
    ensures
        match (r, probe_line(l@)) {
            (Some(x), Some(y)) => x@ == y,
            (None, None) => true,
            _ => false,
        },
{
    let parts = split_on(l, '\t');
    proof { assert(parts@.len() == split_char(l@, '\t').len()); }
    if parts.len() >= 2 {
        let marker = chars_of("install ok installed");
        assert(parts@[1]@ == split_char(l@, '\t')[1]);
        if contains_str(parts[1].as_slice(), marker.as_slice()) {
            assert(parts@[0]@ == split_char(l@, '\t')[0]);
            let n = parts[0].len();
            return Some(slice_chars(parts[0].as_slice(), 0, n));
        }
    }
    None
}

fn installed_names_exec(probe: &str) -> (r: Vec<Vec<char>>)
    ensures
        seqs_of(r@) == installed_names(probe@),
{
    let text = chars_of(probe);
    let ls = split_lines(text.as_slice());
    let ghost lv = lines(probe@);
    let mut r: Vec<Vec<char>> = Vec::new();
    let mut i: usize = 0;
    assert(seqs_of(r@) =~= collect(lv.take(0), probe_fn()));
    while i < ls.len()
        invariant
            i <= ls@.len(),
            seqs_of(ls@) == lv,
            seqs_of(r@) == collect(lv.take(i as int), probe_fn()),
        decreases ls@.len() - i,
    {
        proof { lemma_collect_step(lv, probe_fn(), i as int); }
        assert(ls@[i as int]@ == lv[i as int]);
        match probe_line_exec(ls[i].as_slice()) {
            Some(name) => {
                let ghost before = r@;
                let ghost nv = name@;
                r.push(name);
                assert(seqs_of(r@) =~= seqs_of(before).push(nv));
            },
            None => {},
        }
        i += 1;
    }
    proof { lemma_take_all(lv); }
    r
}


fn search_line_exec(names: &Vec<Vec<char>>, l: &[char]) -> (r: Option<PackageInfo>)
    ensures
        match (r, search_line(seqs_of(names@), l@)) {
            (Some(x), Some(y)) => x@ == y,
            (None, None) => true,
            _ => false,
        },
{
    let sep = chars_of(" - ");
    match split_once_str(l, sep.as_slice()) {
        Some((n, d)) => {
            let name = trim_chars(n.as_slice());
            let desc = trim_chars(d.as_slice());
            let installed = contains_chars(names, name.as_slice());
            let empty: Vec<char> = Vec::new();
            Some(PackageInfo::from_chars(name.as_slice(), empty.as_slice(), desc.as_slice(), installed))
        },
        None => None,
    }
}

fn installed_line_exec(l: &[char]) -> (r: Option<PackageInfo>)
    ensures
        match (r, installed_line(l@)) {
            (Some(x), Some(y)) => x@ == y,
            (None, None) => true,
            _ => false,
        },
{
    let parts = split_on(l, '\t');
    proof { assert(parts@.len() == split_char(l@, '\t').len()); }
    if parts.len() >= 3 {
        let marker = chars_of("install ok installed");
        assert(parts@[2]@ == split_char(l@, '\t')[2]);
        if contains_str(parts[2].as_slice(), marker.as_slice()) {
            assert(parts@[0]@ == split_char(l@, '\t')[0]);
            assert(parts@[1]@ == split_char(l@, '\t')[1]);
            let empty: Vec<char> = Vec::new();
            let desc = if parts.len() > 3 {
                assert(parts@[3]@ == split_char(l@, '\t')[3]);
                parts[3].as_slice()
            } else {
                empty.as_slice()
            };
            return Some(PackageInfo::from_chars(parts[0].as_slice(), parts[1].as_slice(), desc, true));
        }
    }
    None
}

fn source_line_exec(file: &[char], i: usize, raw: &[char]) -> (r: Option<RepoInfo>)
    ensures
        match (r, source_line(file@, i as int, raw@)) {
            (Some(x), Some(y)) => x@ == y,
            (None, None) => true,
            _ => false,
        },
{
    let line = trim_chars(raw);
    if line.len() == 0 {
        return None;
    }
    let stripped = trim_start_char_chars(line.as_slice(), '#');
    let body = trim_chars(stripped.as_slice());
    let deb = chars_of("deb ");
    let deb_src = chars_of("deb-src ");
    if has_prefix(body.as_slice(), deb.as_slice()) || has_prefix(body.as_slice(), deb_src.as_slice()) {
        let hash = chars_of("#");
        let enabled = !has_prefix(line.as_slice(), hash.as_slice());
        let mut id = crate::text::string_of(file);
        id.push(':');
        push_decimal(&mut id, i);
        assert(id@ =~= file@ + ":"@ + decimal(i as nat)) by {
            reveal_strlit(":");
        }
        let name = base_name_exec(file);
        Some(RepoInfo {
            id,
            name: crate::text::string_of(name.as_slice()),
            url: crate::text::string_of(body.as_slice()),
            enabled,
        })
    } else {
        None
    }
}

/// The repositories in one sources file.
pub fn parse_sources(file: &str, text: &str) -> (r: Vec<RepoInfo>)
    ensures
        repos_view(r@) == source_results(file@, text@),
{
    let f = chars_of(file);
    let t = chars_of(text);
    let ls = split_lines(t.as_slice());
    let ghost lv = lines(text@);
    let mut r: Vec<RepoInfo> = Vec::new();
    let mut i: usize = 0;
    assert(repos_view(r@) =~= collect(lv.take(0), source_fn(file@)));
    while i < ls.len()
        invariant
            i <= ls@.len(),
            seqs_of(ls@) == lv,
            f@ == file@,
            repos_view(r@) == collect(lv.take(i as int), source_fn(file@)),
        decreases ls@.len() - i,
    {
        proof { lemma_collect_step(lv, source_fn(file@), i as int); }
        assert(ls@[i as int]@ == lv[i as int]);
        match source_line_exec(f.as_slice(), i, ls[i].as_slice()) {
            Some(x) => {
                let ghost before = r@;
                let ghost xv = x@;
                r.push(x);
                assert(repos_view(r@) =~= repos_view(before).push(xv));
            },
            None => {},
        }
        i += 1;
    }
    proof { lemma_take_all(lv); }
    r
}

/// The packages in the output of `apt-cache search`, each marked installed
/// when the probe lists it as installed.
pub fn parse_search_output(out: &str, probe: &str) -> (r: Vec<PackageInfo>)
    ensures
        packages_view(r@) == search_results(out@, probe@),
{
    let names = installed_names_exec(probe);
    let t = chars_of(out);
    let ls = split_lines(t.as_slice());
    let ghost lv = lines(out@);
    let ghost f = search_fn(installed_names(probe@));
    let mut r: Vec<PackageInfo> = Vec::new();
    let mut i: usize = 0;
    assert(packages_view(r@) =~= collect(lv.take(0), f));
    while i < ls.len()
        invariant
            i <= ls@.len(),
            seqs_of(ls@) == lv,
            seqs_of(names@) == installed_names(probe@),
            f == search_fn(installed_names(probe@)),
            packages_view(r@) == collect(lv.take(i as int), f),
        decreases ls@.len() - i,
    {
        proof { lemma_collect_step(lv, f, i as int); }
        assert(ls@[i as int]@ == lv[i as int]);
        match search_line_exec(&names, ls[i].as_slice()) {
            Some(x) => {
                let ghost before = r@;
                let ghost xv = x@;
                r.push(x);
                assert(packages_view(r@) =~= packages_view(before).push(xv));
            },
            None => {},
        }
        i += 1;
    }
    proof { lemma_take_all(lv); }
    r
}

/// The installed packages in the output of `dpkg-query`.
pub fn parse_installed_output(out: &str) -> (r: Vec<PackageInfo>)
    ensures
        packages_view(r@) == installed_results(out@),
{
    let t = chars_of(out);
    let ls = split_lines(t.as_slice());
    let ghost lv = lines(out@);
    let mut r: Vec<PackageInfo> = Vec::new();
    let mut i: usize = 0;
    assert(packages_view(r@) =~= collect(lv.take(0), installed_fn()));
    while i < ls.len()
        invariant
            i <= ls@.len(),
            seqs_of(ls@) == lv,
            packages_view(r@) == collect(lv.take(i as int), installed_fn()),
        decreases ls@.len() - i,
    {
        proof { lemma_collect_step(lv, installed_fn(), i as int); }
        assert(ls@[i as int]@ == lv[i as int]);
        match installed_line_exec(ls[i].as_slice()) {
            Some(x) => {
                let ghost before = r@;
                let ghost xv = x@;
                r.push(x);
                assert(packages_view(r@) =~= packages_view(before).push(xv));
            },
            None => {},
        }
        i += 1;
    }
    proof { lemma_take_all(lv); }
    r
}


impl PackageManager for Apt {
    open spec fn name_spec(&self) -> Seq<char> {
        "APT (Debian/Ubuntu)"@
    }

    open spec fn binary_spec(&self) -> Seq<char> {
        "apt"@
    }

    open spec fn search_spec(&self, query: Seq<char>, system: bool) -> CommandView {
        command("apt-cache"@, seq!["search"@, query], false)
    }

    open spec fn probe_spec(&self, system: bool) -> Option<CommandView> {
        Some(command("dpkg-query"@, seq!["-W"@, "-f=${Package}\t${Status}\n"@], false))
    }

    open spec fn search_results(&self, out: Seq<char>, probe: Seq<char>) -> Seq<PackageView> {
        search_results(out, probe)
    }

    open spec fn installed_spec(&self, system: bool) -> CommandView {
        command(
            "dpkg-query"@,
            seq!["-W"@, "-f=${Package}\t${Version}\t${Status}\t${binary:Summary}\n"@],
            false,
        )
    }

    open spec fn installed_results(&self, out: Seq<char>) -> Seq<PackageView> {
        installed_results(out)
    }

    open spec fn install_spec(&self, pkg: Seq<char>, system: bool) -> CommandView {
        command("apt-get"@, seq!["install"@, "-y"@, pkg], true)
    }

    open spec fn remove_spec(&self, pkg: Seq<char>, system: bool) -> CommandView {
        command("apt-get"@, seq!["remove"@, "-y"@, pkg], true)
    }

    open spec fn update_index_spec(&self, system: bool) -> CommandView {
        command("apt-get"@, seq!["update"@], true)
    }

    open spec fn upgrade_all_spec(&self, system: bool) -> CommandView {
        command("apt-get"@, seq!["upgrade"@, "-y"@], true)
    }

    open spec fn repo_source_spec(&self, system: bool) -> RepoSourceView {
        RepoSourceView::AptSourceLists
    }

    open spec fn repo_results(&self, origin: Seq<char>, text: Seq<char>) -> Seq<RepoView> {
        source_results(origin, text)
    }

    open spec fn add_repo_spec(&self, repo: Seq<char>, system: bool) -> CommandView {
        command("add-apt-repository"@, seq!["-y"@, repo], true)
    }

    open spec fn remove_repo_spec(&self, repo_id: Seq<char>, system: bool) -> CommandView {
        command("add-apt-repository"@, seq!["-y"@, "--remove"@, repo_id], true)
    }

    fn display_name(&self) -> (r: &'static str) {
        "APT (Debian/Ubuntu)"
    }

    fn binary(&self) -> (r: &'static str) {
        "apt"
    }

    fn search_cmd(&self, query: &str, system: bool) -> (c: PmCommand) {
        PmCommand::new("apt-cache", &["search", query], false)
    }

    fn probe_cmd(&self, system: bool) -> (c: Option<PmCommand>) {
        Some(PmCommand::new("dpkg-query", &["-W", "-f=${Package}\t${Status}\n"], false))
    }

    fn parse_search(&self, out: &str, probe: &str) -> (r: Vec<PackageInfo>) {
        parse_search_output(out, probe)
    }

    fn list_installed_cmd(&self, system: bool) -> (c: PmCommand) {
        PmCommand::new(
            "dpkg-query",
            &["-W", "-f=${Package}\t${Version}\t${Status}\t${binary:Summary}\n"],
            false,
        )
    }

    fn parse_installed(&self, out: &str) -> (r: Vec<PackageInfo>) {
        parse_installed_output(out)
    }

    fn install_cmd(&self, pkg: &str, system: bool) -> (c: PmCommand) {
        PmCommand::new("apt-get", &["install", "-y", pkg], true)
    }

    fn remove_cmd(&self, pkg: &str, system: bool) -> (c: PmCommand) {
        PmCommand::new("apt-get", &["remove", "-y", pkg], true)
    }

    fn update_index_cmd(&self, system: bool) -> (c: PmCommand) {
        PmCommand::new("apt-get", &["update"], true)
    }

    fn upgrade_all_cmd(&self, system: bool) -> (c: PmCommand) {
        PmCommand::new("apt-get", &["upgrade", "-y"], true)
    }

    fn repo_source(&self, system: bool) -> (r: RepoSource) {
        RepoSource::AptSourceLists
    }

    fn parse_repos(&self, origin: &str, text: &str) -> (r: Vec<RepoInfo>) {
        parse_sources(origin, text)
    }

    fn add_repo_cmd(&self, repo: &str, system: bool) -> (c: PmCommand) {
        // A PPA ("ppa:user/name") or a full `deb ...` line, both of which
        // add-apt-repository understands.
        PmCommand::new("add-apt-repository", &["-y", repo], true)
    }

    fn remove_repo_cmd(&self, repo_id: &str, system: bool) -> (c: PmCommand) {
        // add-apt-repository --remove needs the same spec that added it.
        PmCommand::new("add-apt-repository", &["-y", "--remove", repo_id], true)
    }
}

} // verus!
