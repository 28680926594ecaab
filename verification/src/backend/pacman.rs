//! Arch Linux: pacman, with `/etc/pacman.conf` for the repositories.
use vstd::prelude::*;
use crate::text::{
    chars_of, char_from, has_prefix, lemma_char_from, lines, push_chars, push_str, seqs_of,
    slice_chars, split_lines, split_words, starts_with, string_of, trim, trim_chars,
    trim_start_char, trim_start_char_chars, words,
};
use super::{
    collect, command, lemma_collect_step, lemma_take_all, listed, listed_exec, packages_view,
    pkg, repo, repos_view, same_chars, shell_quote, shell_quote_spec, CommandView, PackageInfo,
    PackageManager, PackageView, PmCommand, RepoInfo, RepoSource, RepoSourceView, RepoView,
};

verus! {

pub struct Pacman;

/// What follows the first '/' of a search header ("repo/name ..."), or the
/// whole header when it has none.
pub open spec fn strip_repo_prefix(h: Seq<char>) -> Seq<char> {
    let k = char_from(h, '/', 0);
    if k < h.len() {
        h.skip(k + 1)
    } else {
        h
    }
}

/// The `n`th white-space separated word of `s`, or nothing.
pub open spec fn word(s: Seq<char>, n: int) -> Seq<char> {
    if 0 <= n < words(s).len() {
        words(s)[n]
    } else {
        Seq::empty()
    }
}

/// Description lines of `-Ss` output are indented.
pub open spec fn is_desc_line(l: Seq<char>) -> bool {
    starts_with(l, " "@)
}

/// The package announced by the header line `ls[i]` of `pacman -Ss` (or `yay
/// -Ss`) output: "repo/name version [installed]", its description on the
/// next line when that is indented. It counts as installed when `pacman -Q`
/// (the probe) lists "name " at the start of a line, or, for `aur` output,
/// when the header says "[installed".
pub open spec fn header_entry(ls: Seq<Seq<char>>, i: int, probe: Seq<char>, aur: bool) -> Option<PackageView> {
    let body = strip_repo_prefix(ls[i]);
    let name = word(body, 0);
    let desc = if i + 1 < ls.len() && is_desc_line(ls[i + 1]) { trim(ls[i + 1]) } else { Seq::empty() };
    if name.len() == 0 {
        None
    } else {
        Some(pkg(
            name,
            word(body, 1),
            desc,
            (aur && crate::text::contains(ls[i], "[installed"@)) || listed(probe, name + " "@),
        ))
    }
}

/// The packages of the search output from line `i` on: a header line is
/// read with the line after it, which is then skipped whether or not it was
/// a description; stray indented lines are skipped one at a time.
pub open spec fn search_from(ls: Seq<Seq<char>>, i: int, probe: Seq<char>, aur: bool) -> Seq<PackageView>
    decreases ls.len() + 1 - i,
{
    if i < 0 || i >= ls.len() {
        Seq::empty()
    } else if is_desc_line(ls[i]) {
        search_from(ls, i + 1, probe, aur)
    } else {
        match header_entry(ls, i, probe, aur) {
            Some(p) => seq![p] + search_from(ls, i + 2, probe, aur),
            None => search_from(ls, i + 2, probe, aur),
        }
    }
}

pub open spec fn search_results_with(out: Seq<char>, probe: Seq<char>, aur: bool) -> Seq<PackageView> {
    search_from(lines(out), 0, probe, aur)
}

/// Every package of the search output from line `i` on is announced by some
/// header line at or after `i`.
proof fn lemma_search_from_source(ls: Seq<Seq<char>>, i: int, probe: Seq<char>, aur: bool)
    ensures
        forall|k: int| 0 <= k < search_from(ls, i, probe, aur).len() ==> exists|j: int|
            i <= j < ls.len() && #[trigger] header_entry(ls, j, probe, aur) == Some(
                #[trigger] search_from(ls, i, probe, aur)[k],
            ),
    decreases ls.len() + 1 - i,
{
    let all = search_from(ls, i, probe, aur);
    if i < 0 || i >= ls.len() {
    } else if is_desc_line(ls[i]) {
        lemma_search_from_source(ls, i + 1, probe, aur);
        let rest = search_from(ls, i + 1, probe, aur);
        assert(all == rest);
        assert forall|k: int| #![trigger all[k]] 0 <= k < all.len() implies exists|j: int|
            i <= j < ls.len() && #[trigger] header_entry(ls, j, probe, aur) == Some(all[k]) by {
            assert(all[k] == rest[k]);
        }
    } else {
        lemma_search_from_source(ls, i + 2, probe, aur);
        let rest = search_from(ls, i + 2, probe, aur);
        match header_entry(ls, i, probe, aur) {
            Some(p) => {
                assert(all == seq![p] + rest);
                assert forall|k: int| #![trigger all[k]] 0 <= k < all.len() implies exists|j: int|
                    i <= j < ls.len() && #[trigger] header_entry(ls, j, probe, aur) == Some(all[k]) by {
                    if k == 0 {
                        assert(header_entry(ls, i, probe, aur) == Some(all[0]));
                    } else {
                        assert(all[k] == rest[k - 1]);
                    }
                }
            },
            None => {
                assert(all == rest);
                assert forall|k: int| #![trigger all[k]] 0 <= k < all.len() implies exists|j: int|
                    i <= j < ls.len() && #[trigger] header_entry(ls, j, probe, aur) == Some(all[k]) by {
                    assert(all[k] == rest[k]);
                }
            },
        }
    }
}

/// A pacman search result is marked installed exactly when `pacman -Q` (the
/// probe) has a line that starts with its name followed by a space, that
/// is, a line for that very package and not for a longer name that merely
/// begins with it.
pub proof fn lemma_pacman_installed_by_exact_name(out: Seq<char>, probe: Seq<char>)
    ensures
        forall|k: int| 0 <= k < search_results_with(out, probe, false).len() ==> {
            let p = #[trigger] search_results_with(out, probe, false)[k];
            p.installed <==> exists|m: int|
                0 <= m < lines(probe).len() && starts_with(#[trigger] lines(probe)[m], p.name + " "@)
        },
{
    lemma_search_from_source(lines(out), 0, probe, false);
}

/// A yay search result counts as installed when `pacman -Q` has a line for
/// that very package (its name followed by a space); otherwise only when the
/// search output itself says "[installed" on some line.
pub proof fn lemma_yay_installed_by_exact_name(out: Seq<char>, probe: Seq<char>)
    ensures
        forall|k: int| 0 <= k < search_results_with(out, probe, true).len() ==> {
            let p = #[trigger] search_results_with(out, probe, true)[k];
            &&& (exists|m: int| 0 <= m < lines(probe).len() && starts_with(#[trigger] lines(probe)[m], p.name + " "@))
                ==> p.installed
            &&& p.installed ==> (exists|m: int|
                0 <= m < lines(probe).len() && starts_with(#[trigger] lines(probe)[m], p.name + " "@))
                || (exists|j: int| 0 <= j < lines(out).len() && crate::text::contains(#[trigger] lines(out)[j], "[installed"@))
        },
{
    lemma_search_from_source(lines(out), 0, probe, true);
}

/// A line of `pacman -Q`: "name version".
pub open spec fn installed_line(l: Seq<char>) -> Option<PackageView> {
    if words(l).len() >= 2 {
        Some(pkg(words(l)[0], words(l)[1], Seq::empty(), true))
    } else {
        None
    }
}

pub open spec fn installed_fn() -> spec_fn(int, Seq<char>) -> Option<PackageView> {
    |i: int, l: Seq<char>| installed_line(l)
}

pub open spec fn installed_results(out: Seq<char>) -> Seq<PackageView> {
    collect(lines(out), installed_fn())
}

/// What is read of `pacman.conf` so far: the repositories finished, the
/// section being read, and its server.
#[verifier::ext_equal]
pub struct ConfState {
    pub repos: Seq<RepoView>,
    pub current: Option<Seq<char>>,
    pub server: Seq<char>,
}

/// The name of a section header "[name]".
pub open spec fn section(line: Seq<char>) -> Option<Seq<char>> {
    if line.len() >= 2 && line[0] == '[' && line.last() == ']' {
        Some(line.subrange(1, line.len() - 1))
    } else {
        None
    }
}

/// `str::strip_prefix`.
pub open spec fn strip_prefix(s: Seq<char>, p: Seq<char>) -> Option<Seq<char>> {
    if starts_with(s, p) {
        Some(s.skip(p.len() as int))
    } else {
        None
    }
}

/// The repositories once the section being read is closed: every section
/// but `[options]` is a repository.
pub open spec fn flush(st: ConfState) -> Seq<RepoView> {
    match st.current {
        Some(n) => if n != "options"@ {
            st.repos.push(repo(n, n, st.server, true))
        } else {
            st.repos
        },
        None => st.repos,
    }
}

/// The value after a key: in ` = value`, the white space around the '='
/// and the '=' itself removed.
pub open spec fn value_of(v: Seq<char>) -> Seq<char> {
    trim(trim_start_char(trim(v), '='))
}

/// Reading one line of `pacman.conf`.
pub open spec fn conf_step(st: ConfState, raw: Seq<char>) -> ConfState {
    let line = trim(raw);
    match section(line) {
        Some(name) => ConfState { repos: flush(st), current: Some(name), server: Seq::empty() },
        None => match strip_prefix(line, "Server"@) {
            Some(v) => ConfState { server: value_of(v), ..st },
            None => match strip_prefix(line, "Include"@) {
                Some(v) => if st.server.len() == 0 {
                    ConfState { server: "(via "@ + value_of(v) + ")"@, ..st }
                } else {
                    st
                },
                None => st,
            },
        },
    }
}

pub open spec fn conf_state(ls: Seq<Seq<char>>) -> ConfState
    decreases ls.len(),
{
    if ls.len() == 0 {
        ConfState { repos: Seq::empty(), current: None, server: Seq::empty() }
    } else {
        conf_step(conf_state(ls.drop_last()), ls.last())
    }
}

/// The repositories of a `pacman.conf` whose content is `text`.
pub open spec fn conf_repos(text: Seq<char>) -> Seq<RepoView> {
    flush(conf_state(lines(text)))
}

/// The path of pacman's configuration.
pub open spec fn conf_path() -> Seq<char> {
    "/etc/pacman.conf"@
}

pub open spec fn add_repo_script(repo: Seq<char>) -> Seq<char> {
    "printf '%s\\n' "@ + shell_quote_spec(repo) + " >> /etc/pacman.conf"@
}

pub open spec fn remove_repo_script(repo_id: Seq<char>) -> Seq<char> {
    "awk -v RS= -v ORS=\"\\n\\n\" '!/^\\["@ + repo_id
        + "\\]/' /etc/pacman.conf > /tmp/pacman.conf.new && mv /tmp/pacman.conf.new /etc/pacman.conf"@
}

fn strip_repo_prefix_exec(h: &[char]) -> (r: Vec<char>)
    ensures
        r@ == strip_repo_prefix(h@),
{
    let n = h.len();
    let mut k: usize = 0;
    while k < n && h[k] != '/'
        invariant
            k <= n == h@.len(),
            char_from(h@, '/', 0) == char_from(h@, '/', k as int),
        decreases n - k,
    {
        k += 1;
    }
    if k < n {
        assert(h@.subrange(k + 1, n as int) =~= h@.skip(k + 1));
        slice_chars(h, k + 1, n)
    } else {
        assert(h@.subrange(0, n as int) =~= h@);
        slice_chars(h, 0, n)
    }
}

fn word_exec(ws: &Vec<Vec<char>>, n: usize) -> (r: Vec<char>)
    ensures
        n < ws@.len() ==> r@ == ws@[n as int]@,
        n >= ws@.len() ==> r@ == Seq::<char>::empty(),
{
    if n < ws.len() {
        let m = ws[n].len();
        slice_chars(ws[n].as_slice(), 0, m)
    } else {
        Vec::new()
    }
}

/// The packages in `pacman -Ss` output (or, with `aur`, `yay -Ss` output).
pub fn parse_search_with(out: &str, probe: &str, aur: bool) -> (r: Vec<PackageInfo>)
    ensures
        packages_view(r@) == search_results_with(out@, probe@, aur),
{
    let pt = chars_of(probe);
    let probe_lines = split_lines(pt.as_slice());
    let t = chars_of(out);
    let ls = split_lines(t.as_slice());
    let ghost lv = lines(out@);
    let space = chars_of(" ");
    let marker = chars_of("[installed");
    let mut r: Vec<PackageInfo> = Vec::new();
    let mut i: usize = 0;
    assert(packages_view(r@) =~= Seq::<PackageView>::empty());
    while i < ls.len()
        invariant
            i <= ls@.len(),
            seqs_of(ls@) == lv,
            seqs_of(probe_lines@) == lines(probe@),
            space@ == " "@,
            marker@ == "[installed"@,
            search_results_with(out@, probe@, aur) == packages_view(r@) + search_from(lv, i as int, probe@, aur),
        decreases ls@.len() - i,
    {
        assert(ls@[i as int]@ == lv[i as int]);
        if has_prefix(ls[i].as_slice(), space.as_slice()) {
            i += 1;
            continue;
        }
        let body = strip_repo_prefix_exec(ls[i].as_slice());
        let ws = split_words(body.as_slice());
        let name = word_exec(&ws, 0);
        let version = word_exec(&ws, 1);
        let desc = if i + 1 < ls.len() && has_prefix(ls[i + 1].as_slice(), space.as_slice()) {
            assert(ls@[i + 1]@ == lv[i + 1]);
            trim_chars(ls[i + 1].as_slice())
        } else {
            Vec::new()
        };
        if name.len() > 0 {
            let mut key = name.clone();
            key.push(' ');
            assert(key@ =~= name@ + " "@) by { reveal_strlit(" "); }
            let in_header = aur && crate::text::contains_str(ls[i].as_slice(), marker.as_slice());
            let installed = in_header || listed_exec(&probe_lines, key.as_slice());
            let p = PackageInfo::from_chars(name.as_slice(), version.as_slice(), desc.as_slice(), installed);
            let ghost before = r@;
            let ghost pv = p@;
            r.push(p);
            assert(packages_view(r@) =~= packages_view(before) + seq![pv]);
        }
        if ls.len() - i <= 2 {
            assert(search_from(lv, i + 2, probe@, aur) =~= Seq::<PackageView>::empty());
            assert(search_results_with(out@, probe@, aur) =~= packages_view(r@));
            return r;
        }
        i += 2;
    }
    assert(search_from(lv, i as int, probe@, aur) =~= Seq::<PackageView>::empty());
    assert(search_results_with(out@, probe@, aur) =~= packages_view(r@));
    r
}

fn installed_line_exec(l: &[char]) -> (r: Option<PackageInfo>)
    ensures
        match (r, installed_line(l@)) {
            (Some(x), Some(y)) => x@ == y,
            (None, None) => true,
            _ => false,
        },
{
    let ws = split_words(l);
    if ws.len() >= 2 {
        assert(ws@[0]@ == words(l@)[0]);
        assert(ws@[1]@ == words(l@)[1]);
        let empty: Vec<char> = Vec::new();
        Some(PackageInfo::from_chars(ws[0].as_slice(), ws[1].as_slice(), empty.as_slice(), true))
    } else {
        None
    }
}

/// The packages in `pacman -Q` output.
pub fn parse_installed_output(out: &str) -> (r: Vec<PackageInfo>)
    ensures
        packages_view(r@) == installed_results(out@),
{
    let t = chars_of(out);
    let ls = split_lines(t.as_slice());
    let ghost lv = lines(out@);
    let mut r: Vec<PackageInfo> = Vec::new();
    let mut i: usize = 0;
    assert(packages_view(r@) =~= collect(lv.take(0), installed_fn()));
    while i < ls.len()
        invariant
            i <= ls@.len(),
            seqs_of(ls@) == lv,
            packages_view(r@) == collect(lv.take(i as int), installed_fn()),
        decreases ls@.len() - i,
    {
        proof { lemma_collect_step(lv, installed_fn(), i as int); }
        assert(ls@[i as int]@ == lv[i as int]);
        match installed_line_exec(ls[i].as_slice()) {
            Some(x) => {
                let ghost before = r@;
                let ghost xv = x@;
                r.push(x);
                assert(packages_view(r@) =~= packages_view(before).push(xv));
            },
            None => {},
        }
        i += 1;
    }
    proof { lemma_take_all(lv); }
    r
}


pub open spec fn opt_chars(o: Option<Vec<char>>) -> Option<Seq<char>> {
    match o {
        Some(v) => Some(v@),
        None => None,
    }
}

fn strip_prefix_exec(s: &[char], p: &[char]) -> (r: Option<Vec<char>>)
    ensures
        match (r, strip_prefix(s@, p@)) {
            (Some(x), Some(y)) => x@ == y,
            (None, None) => true,
            _ => false,
        },
{
    if has_prefix(s, p) {
        let n = s.len();
        assert(s@.subrange(p@.len() as int, n as int) =~= s@.skip(p@.len() as int));
        Some(slice_chars(s, p.len(), n))
    } else {
        None
    }
}

fn flush_exec(repos: &mut Vec<RepoInfo>, current: &Option<Vec<char>>, server: &Vec<char>)
    ensures
        repos_view(final(repos)@) == flush(
            ConfState { repos: repos_view(old(repos)@), current: opt_chars(*current), server: server@ },
        ),
{
    match current {
        Some(name) => {
            let options = chars_of("options");
            if !same_chars(name.as_slice(), options.as_slice()) {
                let r = RepoInfo::from_chars(name.as_slice(), name.as_slice(), server.as_slice(), true);
                let ghost before = repos@;
                let ghost rv = r@;
                repos.push(r);
                assert(repos_view(repos@) =~= repos_view(before).push(rv));
            }
        },
        None => {},
    }
}

fn value_exec(v: &[char]) -> (r: Vec<char>)
    ensures
        r@ == value_of(v@),
{
    let t = trim_chars(v);
    let a = trim_start_char_chars(t.as_slice(), '=');
    trim_chars(a.as_slice())
}

/// The repositories of a `pacman.conf` whose content is `text`: each
/// `[section]` but `[options]`, with its `Server`, or "(via <file>)" for an
/// `Include` when no server precedes it.
pub fn parse_conf(text: &str) -> (r: Vec<RepoInfo>)
    ensures
        repos_view(r@) == conf_repos(text@),
{
    let t = chars_of(text);
    let ls = split_lines(t.as_slice());
    let ghost lv = lines(text@);
    let server_key = chars_of("Server");
    let include_key = chars_of("Include");
    let mut repos: Vec<RepoInfo> = Vec::new();
    let mut current: Option<Vec<char>> = None;
    let mut server: Vec<char> = Vec::new();
    let mut i: usize = 0;
    assert(lv.take(0) =~= Seq::<Seq<char>>::empty());
    assert(repos_view(repos@) =~= Seq::<RepoView>::empty());
    while i < ls.len()
        invariant
            i <= ls@.len(),
            seqs_of(ls@) == lv,
            server_key@ == "Server"@,
            include_key@ == "Include"@,
            (ConfState { repos: repos_view(repos@), current: opt_chars(current), server: server@ })
                == conf_state(lv.take(i as int)),
        decreases ls@.len() - i,
    {
        assert(lv.take(i + 1).drop_last() =~= lv.take(i as int));
        assert(ls@[i as int]@ == lv[i as int]);
        let line = trim_chars(ls[i].as_slice());
        let n = line.len();
        if n >= 2 && line[0] == '[' && line[n - 1] == ']' {
            flush_exec(&mut repos, &current, &server);
            current = Some(slice_chars(line.as_slice(), 1, n - 1));
            server = Vec::new();
        } else {
            match strip_prefix_exec(line.as_slice(), server_key.as_slice()) {
                Some(v) => {
                    server = value_exec(v.as_slice());
                },
                None => match strip_prefix_exec(line.as_slice(), include_key.as_slice()) {
                    Some(v) => {
                        if server.len() == 0 {
                            let val = value_exec(v.as_slice());
                            let mut s = String::new();
                            push_str(&mut s, "(via ");
                            push_chars(&mut s, val.as_slice());
                            push_str(&mut s, ")");
                            server = chars_of(s.as_str());
                        }
                    },
                    None => {},
                },
            }
        }
        i += 1;
    }
    proof { lemma_take_all(lv); }
    flush_exec(&mut repos, &current, &server);
    repos
}

fn add_repo_script_exec(repo: &str) -> (s: String)
    ensures
        s@ == add_repo_script(repo@),
{
    let mut s = String::new();
    push_str(&mut s, "printf '%s\\n' ");
    let q = shell_quote(repo);
    push_str(&mut s, q.as_str());
    push_str(&mut s, " >> /etc/pacman.conf");
    assert(s@ =~= add_repo_script(repo@));
    s
}

fn remove_repo_script_exec(repo_id: &str) -> (s: String)
    ensures
        s@ == remove_repo_script(repo_id@),
{
    let mut s = String::new();
    push_str(&mut s, "awk -v RS= -v ORS=\"\\n\\n\" '!/^\\[");
    push_str(&mut s, repo_id);
    push_str(&mut s, "\\]/' /etc/pacman.conf > /tmp/pacman.conf.new && mv /tmp/pacman.conf.new /etc/pacman.conf");
    assert(s@ =~= remove_repo_script(repo_id@));
    s
}

impl Pacman {
    /// The command that appends `repo` (a whole section, e.g.
    /// "[myrepo]\nServer = https://example.com/$repo/$arch") verbatim to
    /// `pacman.conf`; the text is shell-quoted so that it reaches the file
    /// unchanged.
    pub fn add_repo_command(repo: &str) -> (c: PmCommand)
        ensures
            c@ == command("sh"@, seq!["-c"@, add_repo_script(repo@)], true),
    {
        let script = add_repo_script_exec(repo);
        PmCommand::new("sh", &["-c", script.as_str()], true)
    }

    /// The command that strips the `[repo_id]` section (up to the next
    /// section or the end) out of `pacman.conf`.
    pub fn remove_repo_command(repo_id: &str) -> (c: PmCommand)
        ensures
            c@ == command("sh"@, seq!["-c"@, remove_repo_script(repo_id@)], true),
    {
        let script = remove_repo_script_exec(repo_id);
        PmCommand::new("sh", &["-c", script.as_str()], true)
    }
}

impl PackageManager for Pacman {
    open spec fn name_spec(&self) -> Seq<char> {
        "Pacman (Arch Linux)"@
    }

    open spec fn binary_spec(&self) -> Seq<char> {
        "pacman"@
    }

    open spec fn search_spec(&self, query: Seq<char>, system: bool) -> CommandView {
        command("pacman"@, seq!["-Ss"@, query], false)
    }

    open spec fn probe_spec(&self, system: bool) -> Option<CommandView> {
        Some(command("pacman"@, seq!["-Q"@], false))
    }

    open spec fn search_results(&self, out: Seq<char>, probe: Seq<char>) -> Seq<PackageView> {
        search_results_with(out, probe, false)
    }

    open spec fn installed_spec(&self, system: bool) -> CommandView {
        command("pacman"@, seq!["-Q"@], false)
    }

    open spec fn installed_results(&self, out: Seq<char>) -> Seq<PackageView> {
        installed_results(out)
    }

    open spec fn install_spec(&self, pkg: Seq<char>, system: bool) -> CommandView {
        command("pacman"@, seq!["-S"@, "--noconfirm"@, pkg], true)
    }

    open spec fn remove_spec(&self, pkg: Seq<char>, system: bool) -> CommandView {
        command("pacman"@, seq!["-R"@, "--noconfirm"@, pkg], true)
    }

    open spec fn update_index_spec(&self, system: bool) -> CommandView {
        command("pacman"@, seq!["-Sy"@], true)
    }

    open spec fn upgrade_all_spec(&self, system: bool) -> CommandView {
        command("pacman"@, seq!["-Syu"@, "--noconfirm"@], true)
    }

    open spec fn repo_source_spec(&self, system: bool) -> RepoSourceView {
        RepoSourceView::File(conf_path())
    }

    open spec fn repo_results(&self, origin: Seq<char>, text: Seq<char>) -> Seq<RepoView> {
        conf_repos(text)
    }

    open spec fn add_repo_spec(&self, repo: Seq<char>, system: bool) -> CommandView {
        command("sh"@, seq!["-c"@, add_repo_script(repo)], true)
    }

    open spec fn remove_repo_spec(&self, repo_id: Seq<char>, system: bool) -> CommandView {
        command("sh"@, seq!["-c"@, remove_repo_script(repo_id)], true)
    }

    fn display_name(&self) -> (r: &'static str) {
        "Pacman (Arch Linux)"
    }

    fn binary(&self) -> (r: &'static str) {
        "pacman"
    }

    fn search_cmd(&self, query: &str, system: bool) -> (c: PmCommand) {
        PmCommand::new("pacman", &["-Ss", query], false)
    }

    fn probe_cmd(&self, system: bool) -> (c: Option<PmCommand>) {
        Some(PmCommand::new("pacman", &["-Q"], false))
    }

    fn parse_search(&self, out: &str, probe: &str) -> (r: Vec<PackageInfo>) {
        parse_search_with(out, probe, false)
    }

    fn list_installed_cmd(&self, system: bool) -> (c: PmCommand) {
        PmCommand::new("pacman", &["-Q"], false)
    }

    fn parse_installed(&self, out: &str) -> (r: Vec<PackageInfo>) {
        parse_installed_output(out)
    }

    fn install_cmd(&self, pkg: &str, system: bool) -> (c: PmCommand) {
        PmCommand::new("pacman", &["-S", "--noconfirm", pkg], true)
    }

    fn remove_cmd(&self, pkg: &str, system: bool) -> (c: PmCommand) {
        PmCommand::new("pacman", &["-R", "--noconfirm", pkg], true)
    }

    fn update_index_cmd(&self, system: bool) -> (c: PmCommand) {
        PmCommand::new("pacman", &["-Sy"], true)
    }

    fn upgrade_all_cmd(&self, system: bool) -> (c: PmCommand) {
        PmCommand::new("pacman", &["-Syu", "--noconfirm"], true)
    }

    fn repo_source(&self, system: bool) -> (r: RepoSource) {
        RepoSource::File("/etc/pacman.conf".to_owned())
    }

    fn parse_repos(&self, origin: &str, text: &str) -> (r: Vec<RepoInfo>) {
        parse_conf(text)
    }

    fn add_repo_cmd(&self, repo: &str, system: bool) -> (c: PmCommand) {
        Pacman::add_repo_command(repo)
    }

    fn remove_repo_cmd(&self, repo_id: &str, system: bool) -> (c: PmCommand) {
        Pacman::remove_repo_command(repo_id)
    }
}

} // verus!
