//! The types every backend shares, the `PackageManager` interface, and the
//! plan by which a `PmCommand` is launched (elevated through pkexec or sudo
//! when it needs root) and its outcome reported.
pub mod any;
pub mod apk;
pub mod apt;
pub mod dnf;
pub mod flatpak;
pub mod pacman;
pub mod yay;
pub mod zypper;

use vstd::prelude::*;
use crate::text::{
    has_prefix, lines, seqs_of, starts_with,
    chars_of, contains, contains_str, push_chars, string_of, to_ascii_lower, ascii_lower, trim,
    trim_chars,
};

verus! {

/// One package as a backend reports it.
#[derive(Clone, Debug, PartialEq, Eq)]
pub struct PackageInfo {
    pub name: String,
    pub version: String,
    pub description: String,
    pub installed: bool,
}

/// The mathematical value of a `PackageInfo`.
#[verifier::ext_equal]
pub struct PackageView {
    pub name: Seq<char>,
    pub version: Seq<char>,
    pub description: Seq<char>,
    pub installed: bool,
}

impl View for PackageInfo {
    type V = PackageView;

    open spec fn view(&self) -> PackageView {
        PackageView {
            name: self.name@,
            version: self.version@,
            description: self.description@,
            installed: self.installed,
        }
    }
}

pub open spec fn pkg(name: Seq<char>, version: Seq<char>, description: Seq<char>, installed: bool) -> PackageView {
    PackageView { name, version, description, installed }
}

/// The views of a list of packages.
pub open spec fn packages_view(v: Seq<PackageInfo>) -> Seq<PackageView> {
    v.map_values(|p: PackageInfo| p@)
}

impl PackageInfo {
    pub fn from_chars(name: &[char], version: &[char], description: &[char], installed: bool) -> (p: PackageInfo)
        ensures
            p@ == pkg(name@, version@, description@, installed),
    {
        PackageInfo {
            name: string_of(name),
            version: string_of(version),
            description: string_of(description),
            installed,
        }
    }
}

/// One repository (or Flatpak remote) as a backend reports it.
#[derive(Clone, Debug, PartialEq, Eq)]
pub struct RepoInfo {
    /// Short identifier used to enable/disable/remove the repo.
    pub id: String,
    pub name: String,
    pub url: String,
    pub enabled: bool,
}

/// The mathematical value of a `RepoInfo`.
#[verifier::ext_equal]
pub struct RepoView {
    pub id: Seq<char>,
    pub name: Seq<char>,
    pub url: Seq<char>,
    pub enabled: bool,
}

impl View for RepoInfo {
    type V = RepoView;

    open spec fn view(&self) -> RepoView {
        RepoView { id: self.id@, name: self.name@, url: self.url@, enabled: self.enabled }
    }
}

pub open spec fn repo(id: Seq<char>, name: Seq<char>, url: Seq<char>, enabled: bool) -> RepoView {
    RepoView { id, name, url, enabled }
}

/// The views of a list of repositories.
pub open spec fn repos_view(v: Seq<RepoInfo>) -> Seq<RepoView> {
    v.map_values(|r: RepoInfo| r@)
}

impl RepoInfo {
    pub fn from_chars(id: &[char], name: &[char], url: &[char], enabled: bool) -> (r: RepoInfo)
        ensures
            r@ == repo(id@, name@, url@, enabled),
    {
        RepoInfo { id: string_of(id), name: string_of(name), url: string_of(url), enabled }
    }
}

/// A command to run, split into the program and its arguments and whether it
/// needs root, so that the launcher decides how to elevate it. A password,
/// when one is attached, is fed to `sudo -S` instead of prompting.
#[derive(Clone, Debug)]
pub struct PmCommand {
    pub program: String,
    pub args: Vec<String>,
    pub needs_root: bool,
    pub password: Option<String>,
}

/// The mathematical value of a `PmCommand`.
#[verifier::ext_equal]
pub struct CommandView {
    pub program: Seq<char>,
    pub args: Seq<Seq<char>>,
    pub needs_root: bool,
    pub password: Option<Seq<char>>,
}

pub open spec fn strings_view(v: Seq<String>) -> Seq<Seq<char>> {
    v.map_values(|s: String| s@)
}

pub open spec fn opt_string_view(o: Option<String>) -> Option<Seq<char>> {
    match o {
        Some(s) => Some(s@),
        None => None,
    }
}

impl View for PmCommand {
    type V = CommandView;

    open spec fn view(&self) -> CommandView {
        CommandView {
            program: self.program@,
            args: strings_view(self.args@),
            needs_root: self.needs_root,
            password: opt_string_view(self.password),
        }
    }
}

/// A command without a password.
pub open spec fn command(program: Seq<char>, args: Seq<Seq<char>>, needs_root: bool) -> CommandView {
    CommandView { program, args, needs_root, password: None }
}

/// The views of a slice of string slices.
pub open spec fn strs_view(v: Seq<&str>) -> Seq<Seq<char>> {
    v.map_values(|s: &str| s@)
}

/// A copy of `v`, string by string.
pub fn copy_strings(v: &Vec<String>) -> (r: Vec<String>)
    ensures
        strings_view(r@) == strings_view(v@),
{
    let mut r: Vec<String> = Vec::new();
    let mut i: usize = 0;
    while i < v.len()
        invariant
            i <= v@.len(),
            r@.len() == i,
            strings_view(r@) == strings_view(v@.take(i as int)),
        decreases v@.len() - i,
    {
        let ghost before = r@;
        r.push(v[i].clone());
        assert forall|k: int| 0 <= k < i + 1 implies #[trigger] strings_view(r@)[k] == strings_view(v@.take(i + 1))[k] by {
            if k < i {
                assert(strings_view(before)[k] == strings_view(v@.take(i as int))[k]);
            }
        }
        assert(strings_view(r@) =~= strings_view(v@.take(i + 1)));
        i += 1;
    }
    assert(v@.take(v@.len() as int) =~= v@);
    r
}

pub fn copy_opt_string(o: &Option<String>) -> (r: Option<String>)
    ensures
        opt_string_view(r) == opt_string_view(*o),
{
    match o {
        Some(s) => Some(s.clone()),
        None => None,
    }
}

impl PmCommand {
    pub fn new(program: &str, args: &[&str], needs_root: bool) -> (c: PmCommand)
        ensures
            c@ == command(program@, strs_view(args@), needs_root),
    {
        let mut v: Vec<String> = Vec::new();
        let mut i: usize = 0;
        while i < args.len()
            invariant
                i <= args@.len(),
                v@.len() == i,
                strings_view(v@) == strs_view(args@.take(i as int)),
            decreases args@.len() - i,
        {
            let s: &str = args[i];
            let ghost before = v@;
            v.push(s.to_owned());
            assert forall|k: int| 0 <= k < i + 1 implies #[trigger] strings_view(v@)[k] == strs_view(args@.take(i + 1))[k] by {
                if k < i {
                    assert(strings_view(before)[k] == strs_view(args@.take(i as int))[k]);
                }
            }
            assert(strings_view(v@) =~= strs_view(args@.take(i + 1)));
            i += 1;
        }
        assert(args@.take(args@.len() as int) =~= args@);
        PmCommand { program: program.to_owned(), args: v, needs_root, password: None }
    }

    /// The same command with `password` attached.
    pub fn with_password(self, password: String) -> (c: PmCommand)
        ensures
            c@ == (CommandView { password: Some(password@), ..self@ }),
    {
        PmCommand { password: Some(password), ..self }
    }

    /// A copy of this command, password included.
    pub fn duplicate(&self) -> (c: PmCommand)
        ensures
            c@ == self@,
    {
        PmCommand {
            program: self.program.clone(),
            args: copy_strings(&self.args),
            needs_root: self.needs_root,
            password: copy_opt_string(&self.password),
        }
    }
}


/// Where a backend's repository list comes from.
pub enum RepoSource {
    /// The standard output of a read-only command.
    Command(PmCommand),
    /// The content of one configuration file (empty when it cannot be read).
    File(String),
    /// APT's `sources.list` and the `*.list` files beside it (see
    /// `apt::source_files`), each file that can be read.
    AptSourceLists,
}

#[verifier::ext_equal]
pub enum RepoSourceView {
    Command(CommandView),
    File(Seq<char>),
    AptSourceLists,
}

impl View for RepoSource {
    type V = RepoSourceView;

    open spec fn view(&self) -> RepoSourceView {
        match self {
            RepoSource::Command(c) => RepoSourceView::Command(c@),
            RepoSource::File(f) => RepoSourceView::File(f@),
            RepoSource::AptSourceLists => RepoSourceView::AptSourceLists,
        }
    }
}

/// Common interface every package manager backend implements. The front end
/// never talks to `apt`/`dnf`/`pacman`/`zypper` directly: it asks a backend
/// which command to run and hands the command's output back to the same
/// backend to parse, which is what makes it distribution-agnostic.
///
/// `system` selects system-wide rather than per-user scope where a backend
/// has both (Flatpak); the others ignore it.
pub trait PackageManager {
    /// The human readable name, e.g. "APT (Debian/Ubuntu)".
    spec fn name_spec(&self) -> Seq<char>;

    /// The underlying binary, e.g. "apt".
    spec fn binary_spec(&self) -> Seq<char>;

    /// The read-only command whose output lists the matches of `query`.
    spec fn search_spec(&self, query: Seq<char>, system: bool) -> CommandView;

    /// The read-only command whose output tells which search results are
    /// installed, if the backend needs one.
    spec fn probe_spec(&self, system: bool) -> Option<CommandView>;

    /// The packages found in a search's output, `probe` being the output of
    /// the probe command (empty when there is none or it failed).
    spec fn search_results(&self, out: Seq<char>, probe: Seq<char>) -> Seq<PackageView>;

    /// The read-only command that lists the installed packages.
    spec fn installed_spec(&self, system: bool) -> CommandView;

    /// The packages listed in that command's output.
    spec fn installed_results(&self, out: Seq<char>) -> Seq<PackageView>;

    spec fn install_spec(&self, pkg: Seq<char>, system: bool) -> CommandView;

    spec fn remove_spec(&self, pkg: Seq<char>, system: bool) -> CommandView;

    spec fn update_index_spec(&self, system: bool) -> CommandView;

    spec fn upgrade_all_spec(&self, system: bool) -> CommandView;

    /// Where the repository list is read from.
    spec fn repo_source_spec(&self, system: bool) -> RepoSourceView;

    /// The repositories found in `text`, read from `origin` (the command's
    /// program, or the path of the file).
    spec fn repo_results(&self, origin: Seq<char>, text: Seq<char>) -> Seq<RepoView>;

    spec fn add_repo_spec(&self, repo: Seq<char>, system: bool) -> CommandView;

    spec fn remove_repo_spec(&self, repo_id: Seq<char>, system: bool) -> CommandView;

    fn display_name(&self) -> (r: &'static str)
        ensures
            r@ == self.name_spec(),
    ;

    fn binary(&self) -> (r: &'static str)
        ensures
            r@ == self.binary_spec(),
    ;

    fn search_cmd(&self, query: &str, system: bool) -> (c: PmCommand)
        ensures
            c@ == self.search_spec(query@, system),
    ;

    fn probe_cmd(&self, system: bool) -> (c: Option<PmCommand>)
        ensures
            match (c, self.probe_spec(system)) {
                (Some(c), Some(p)) => c@ == p,
                (None, None) => true,
                _ => false,
            },
    ;

    fn parse_search(&self, out: &str, probe: &str) -> (r: Vec<PackageInfo>)
        ensures
            packages_view(r@) == self.search_results(out@, probe@),
    ;

    fn list_installed_cmd(&self, system: bool) -> (c: PmCommand)
        ensures
            c@ == self.installed_spec(system),
    ;

    fn parse_installed(&self, out: &str) -> (r: Vec<PackageInfo>)
        ensures
            packages_view(r@) == self.installed_results(out@),
    ;

    fn install_cmd(&self, pkg: &str, system: bool) -> (c: PmCommand)
        ensures
            c@ == self.install_spec(pkg@, system),
    ;

    fn remove_cmd(&self, pkg: &str, system: bool) -> (c: PmCommand)
        ensures
            c@ == self.remove_spec(pkg@, system),
    ;

    fn update_index_cmd(&self, system: bool) -> (c: PmCommand)
        ensures
            c@ == self.update_index_spec(system),
    ;

    fn upgrade_all_cmd(&self, system: bool) -> (c: PmCommand)
        ensures
            c@ == self.upgrade_all_spec(system),
    ;

    fn repo_source(&self, system: bool) -> (r: RepoSource)
        ensures
            r@ == self.repo_source_spec(system),
    ;

    fn parse_repos(&self, origin: &str, text: &str) -> (r: Vec<RepoInfo>)
        ensures
            repos_view(r@) == self.repo_results(origin@, text@),
    ;

    fn add_repo_cmd(&self, repo: &str, system: bool) -> (c: PmCommand)
        ensures
            c@ == self.add_repo_spec(repo@, system),
    ;

    fn remove_repo_cmd(&self, repo_id: &str, system: bool) -> (c: PmCommand)
        ensures
            c@ == self.remove_repo_spec(repo_id@, system),
    ;
}

// ---------------------------------------------------------------------------
// Launching commands
// ---------------------------------------------------------------------------

/// How a `PmCommand` is started: the program actually run, its arguments, and
/// what is written to its standard input.
pub struct Launch {
    pub program: String,
    pub args: Vec<String>,
    pub stdin: Option<String>,
}

/// The launch of `cmd`. A command that needs root runs under `sudo -S` when a
/// password is attached (the password and a newline go to its standard
/// input), otherwise under `pkexec` when it is available and `sudo` when it is
/// not, with the program as the launcher's first argument. Any other command
/// runs as it is.
pub open spec fn launch_spec(cmd: CommandView, pkexec_available: bool) -> (Seq<char>, Seq<Seq<char>>, Option<Seq<char>>) {
    if cmd.needs_root {
        match cmd.password {
            Some(pw) => ("sudo"@, seq!["-S"@, cmd.program] + cmd.args, Some(pw.push('\n'))),
            None => (
                if pkexec_available { "pkexec"@ } else { "sudo"@ },
                seq![cmd.program] + cmd.args,
                None,
            ),
        }
    } else {
        (cmd.program, cmd.args, None)
    }
}

/// Plans how `cmd` is run; `pkexec_available` tells whether `pkexec` is on
/// the search path.
pub fn plan_launch(cmd: &PmCommand, pkexec_available: bool) -> (l: Launch)
    ensures
        launch_spec(cmd@, pkexec_available) == (l.program@, strings_view(l.args@), opt_string_view(l.stdin)),
{
    if cmd.needs_root {
        let mut args: Vec<String> = Vec::new();
        let launcher;
        let stdin;
        match &cmd.password {
            Some(pw) => {
                launcher = "sudo".to_owned();
                args.push("-S".to_owned());
                let mut input = pw.clone();
                input.push('\n');
                stdin = Some(input);
            },
            None => {
                launcher = if pkexec_available { "pkexec".to_owned() } else { "sudo".to_owned() };
                stdin = None;
            },
        }
        let ghost prefix = strings_view(args@);
        args.push(cmd.program.clone());
        let mut i: usize = 0;
        while i < cmd.args.len()
            invariant
                i <= cmd.args@.len(),
                args@.len() == prefix.len() + 1 + i,
                strings_view(args@) == prefix + seq![cmd.program@] + strings_view(cmd.args@.take(i as int)),
            decreases cmd.args@.len() - i,
        {
            let ghost before = args@;
            args.push(cmd.args[i].clone());
            assert(strings_view(args@) =~= strings_view(before).push(cmd.args@[i as int]@));
            assert(strings_view(cmd.args@.take(i + 1)) =~= strings_view(cmd.args@.take(i as int)).push(cmd.args@[i as int]@));
            i += 1;
        }
        assert(cmd.args@.take(cmd.args@.len() as int) =~= cmd.args@);
        proof {
            if cmd.password is Some {
                assert(strings_view(args@) =~= seq!["-S"@, cmd.program@] + strings_view(cmd.args@));
            } else {
                assert(prefix =~= Seq::<Seq<char>>::empty());
                assert(strings_view(args@) =~= seq![cmd.program@] + strings_view(cmd.args@));
            }
        }
        Launch { program: launcher, args, stdin }
    } else {
        Launch { program: cmd.program.clone(), args: copy_strings(&cmd.args), stdin: None }
    }
}

/// What running a launch reports: the combined standard output and standard
/// error on success; on failure the same text, or, when it is blank,
/// "<launcher> exited with status <status>".
pub open spec fn outcome_spec(launcher: Seq<char>, success: bool, stdout: Seq<char>, stderr: Seq<char>, status: Seq<char>) -> Result<Seq<char>, Seq<char>> {
    let combined = stdout + stderr;
    if success {
        Ok(combined)
    } else if trim(combined).len() == 0 {
        Err(launcher + " exited with status "@ + status)
    } else {
        Err(combined)
    }
}

pub open spec fn result_view(r: Result<String, String>) -> Result<Seq<char>, Seq<char>> {
    match r {
        Ok(s) => Ok(s@),
        Err(e) => Err(e@),
    }
}

/// The result of an executed command, from whether it succeeded, its output
/// streams (decoded) and its exit status as text.
pub fn launch_outcome(launcher: &str, success: bool, stdout: &str, stderr: &str, status: &str) -> (r: Result<String, String>)
    ensures
        result_view(r) == outcome_spec(launcher@, success, stdout@, stderr@, status@),
{
    let mut combined = stdout.to_owned();
    let err_chars = chars_of(stderr);
    push_chars(&mut combined, err_chars.as_slice());
    if success {
        return Ok(combined);
    }
    let all = chars_of(combined.as_str());
    let trimmed = trim_chars(all.as_slice());
    if trimmed.len() == 0 {
        let mut msg = launcher.to_owned();
        let mid = chars_of(" exited with status ");
        push_chars(&mut msg, mid.as_slice());
        let st = chars_of(status);
        push_chars(&mut msg, st.as_slice());
        Err(msg)
    } else {
        Err(combined)
    }
}

/// What a read-only command yields: its standard output on success; on
/// failure its standard output when that is not empty (some tools print
/// useful data and still exit non-zero), else its standard error.
pub open spec fn capture_spec(success: bool, stdout: Seq<char>, stderr: Seq<char>) -> Result<Seq<char>, Seq<char>> {
    if success || stdout.len() > 0 {
        Ok(stdout)
    } else {
        Err(stderr)
    }
}

pub fn capture_outcome(success: bool, stdout: &str, stderr: &str) -> (r: Result<String, String>)
    ensures
        result_view(r) == capture_spec(success, stdout@, stderr@),
{
    if success || !stdout.is_empty() {
        Ok(stdout.to_owned())
    } else {
        Err(stderr.to_owned())
    }
}

/// The results of `f` over the lines `ls`, in order, skipping the lines for
/// which `f` gives nothing; `f` also receives the line's index.
pub open spec fn collect<A>(ls: Seq<Seq<char>>, f: spec_fn(int, Seq<char>) -> Option<A>) -> Seq<A>
    decreases ls.len(),
{
    if ls.len() == 0 {
        Seq::empty()
    } else {
        let rest = collect(ls.drop_last(), f);
        match f(ls.len() - 1, ls.last()) {
            Some(x) => rest.push(x),
            None => rest,
        }
    }
}

pub proof fn lemma_collect_step<A>(ls: Seq<Seq<char>>, f: spec_fn(int, Seq<char>) -> Option<A>, i: int)
    requires
        0 <= i < ls.len(),
    ensures
        collect(ls.take(i + 1), f) == match f(i, ls[i]) {
            Some(x) => collect(ls.take(i), f).push(x),
            None => collect(ls.take(i), f),
        },
{
    assert(ls.take(i + 1).drop_last() =~= ls.take(i));
}

pub proof fn lemma_take_all<A>(ls: Seq<A>)
    ensures
        ls.take(ls.len() as int) == ls,
{
    assert(ls.take(ls.len() as int) =~= ls);
}

/// What `f` gives for a line is among the results `collect` gathers.
pub proof fn lemma_collect_complete<A>(ls: Seq<Seq<char>>, f: spec_fn(int, Seq<char>) -> Option<A>, k: int, x: A)
    requires
        0 <= k < ls.len(),
        f(k, ls[k]) == Some(x),
    ensures
        collect(ls, f).contains(x),
    decreases ls.len(),
{
    let rest = collect(ls.drop_last(), f);
    if k == ls.len() - 1 {
        assert(collect(ls, f) == rest.push(x));
        assert(collect(ls, f)[rest.len() as int] == x);
    } else {
        assert(ls.drop_last()[k] == ls[k]);
        lemma_collect_complete(ls.drop_last(), f, k, x);
        let j = choose|j: int| 0 <= j < rest.len() && rest[j] == x;
        match f(ls.len() - 1, ls.last()) {
            Some(y) => {
                assert(collect(ls, f) == rest.push(y));
                assert(collect(ls, f)[j] == x);
            },
            None => {},
        }
    }
}

/// Compares two character sequences.
pub fn same_chars(a: &[char], b: &[char]) -> (r: bool)
    ensures
        r == (a@ == b@),
{
    if a.len() != b.len() {
        return false;
    }
    let mut i: usize = 0;
    while i < a.len()
        invariant
            a@.len() == b@.len(),
            i <= a@.len(),
            forall|k: int| 0 <= k < i ==> a@[k] == b@[k],
        decreases a@.len() - i,
    {
        if a[i] != b[i] {
            return false;
        }
        i += 1;
    }
    assert(a@ =~= b@);
    true
}

/// Whether `x` is one of `v`.
pub fn contains_chars(v: &Vec<Vec<char>>, x: &[char]) -> (r: bool)
    ensures
        r == crate::text::seqs_of(v@).contains(x@),
{
    let mut i: usize = 0;
    while i < v.len()
        invariant
            i <= v@.len(),
            forall|k: int| 0 <= k < i ==> v@[k]@ != x@,
        decreases v@.len() - i,
    {
        if same_chars(v[i].as_slice(), x) {
            assert(crate::text::seqs_of(v@)[i as int] == x@);
            return true;
        }
        i += 1;
    }
    assert forall|k: int| 0 <= k < v@.len() implies crate::text::seqs_of(v@)[k] != x@ by {
        assert(crate::text::seqs_of(v@)[k] == v@[k]@);
    }
    false
}

/// Some line of `probe` starts with `name`.
pub open spec fn listed(probe: Seq<char>, name: Seq<char>) -> bool {
    exists|k: int| 0 <= k < lines(probe).len() && starts_with(#[trigger] lines(probe)[k], name)
}

/// Whether some line of the probe starts with `name`, given the probe's lines.
pub fn listed_exec(probe_lines: &Vec<Vec<char>>, name: &[char]) -> (b: bool)
    requires
        exists|p: Seq<char>| seqs_of(probe_lines@) == lines(p),
    ensures
        forall|p: Seq<char>| seqs_of(probe_lines@) == lines(p) ==> b == listed(p, name@),
{
    let mut i: usize = 0;
    while i < probe_lines.len()
        invariant
            i <= probe_lines@.len(),
            forall|k: int| 0 <= k < i ==> !starts_with(#[trigger] probe_lines@[k]@, name@),
        decreases probe_lines@.len() - i,
    {
        if has_prefix(probe_lines[i].as_slice(), name) {
            assert forall|p: Seq<char>| seqs_of(probe_lines@) == lines(p) implies listed(p, name@) by {
                assert(lines(p)[i as int] == probe_lines@[i as int]@);
            }
            return true;
        }
        i += 1;
    }
    assert forall|p: Seq<char>| seqs_of(probe_lines@) == lines(p) implies !listed(p, name@) by {
        assert forall|k: int| 0 <= k < lines(p).len() implies !starts_with(#[trigger] lines(p)[k], name@) by {
            assert(lines(p)[k] == probe_lines@[k]@);
        }
    }
    false
}

// ---------------------------------------------------------------------------
// Shell quoting
// ---------------------------------------------------------------------------

/// How one character is written inside single quotes: a quote closes the
/// quoting, is written escaped, and reopens it.
pub open spec fn quote_char(c: char) -> Seq<char> {
    if c == '\'' {
        seq!['\'', '\\', '\'', '\'']
    } else {
        seq![c]
    }
}

pub open spec fn quote_body(s: Seq<char>) -> Seq<char>
    decreases s.len(),
{
    if s.len() == 0 {
        Seq::empty()
    } else {
        quote_char(s[0]) + quote_body(s.drop_first())
    }
}

/// `s` as one single-quoted shell word: `'` + `s` with every `'` written
/// `'\''` + `'`.
pub open spec fn shell_quote_spec(s: Seq<char>) -> Seq<char> {
    seq!['\''] + quote_body(s) + seq!['\'']
}

/// How a POSIX shell reads the word `w` (its quoting only): inside single
/// quotes every character stands for itself up to the closing quote;
/// outside them a backslash escapes the next character and a quote opens
/// a quoted part. `None` when a quote or an escape is left unfinished.
pub open spec fn unquote_from(w: Seq<char>, quoted: bool) -> Option<Seq<char>>
    decreases w.len(),
{
    if w.len() == 0 {
        if quoted { None } else { Some(Seq::empty()) }
    } else if quoted {
        if w[0] == '\'' {
            unquote_from(w.drop_first(), false)
        } else {
            match unquote_from(w.drop_first(), true) {
                Some(r) => Some(seq![w[0]] + r),
                None => None,
            }
        }
    } else if w[0] == '\'' {
        unquote_from(w.drop_first(), true)
    } else if w[0] == '\\' {
        if w.len() < 2 {
            None
        } else {
            match unquote_from(w.skip(2), false) {
                Some(r) => Some(seq![w[1]] + r),
                None => None,
            }
        }
    } else {
        match unquote_from(w.drop_first(), false) {
            Some(r) => Some(seq![w[0]] + r),
            None => None,
        }
    }
}

pub open spec fn unquote(w: Seq<char>) -> Option<Seq<char>> {
    unquote_from(w, false)
}

proof fn lemma_quote_body_concat(a: Seq<char>, b: Seq<char>)
    ensures
        quote_body(a + b) == quote_body(a) + quote_body(b),
    decreases a.len(),
{
    if a.len() == 0 {
        assert(a + b =~= b);
    } else {
        assert((a + b).drop_first() =~= a.drop_first() + b);
        lemma_quote_body_concat(a.drop_first(), b);
        assert(quote_body(a + b) =~= quote_body(a) + quote_body(b));
    }
}

proof fn lemma_unquote_body(s: Seq<char>, t: Seq<char>)
    ensures
        unquote_from(quote_body(s) + t, true) == match unquote_from(t, true) {
            Some(r) => Some(s + r),
            None => None,
        },
    decreases s.len(),
{
    if s.len() == 0 {
        assert(quote_body(s) + t =~= t);
        match unquote_from(t, true) {
            Some(r) => { assert(s + r =~= r); },
            None => {},
        }
    } else {
        let rest = s.drop_first();
        lemma_unquote_body(rest, t);
        let w = quote_body(s) + t;
        let tail = quote_body(rest) + t;
        if s[0] == '\'' {
            assert(w =~= seq!['\'', '\\', '\'', '\''] + tail);
            let w1 = w.drop_first();
            assert(w1 =~= seq!['\\', '\'', '\''] + tail);
            let w2 = w1.skip(2);
            assert(w2 =~= seq!['\''] + tail);
            assert(w2.drop_first() =~= tail);
            assert(unquote_from(w2, false) == unquote_from(tail, true));
            assert(unquote_from(w, true) == unquote_from(w1, false));
            assert(w1[1] == '\'');
            assert(unquote_from(w1, false) == match unquote_from(w2, false) {
                Some(r) => Some(seq!['\''] + r),
                None => None,
            });
        } else {
            assert(w =~= seq![s[0]] + tail);
            assert(w.drop_first() =~= tail);
            assert(unquote_from(w, true) == match unquote_from(tail, true) {
                Some(r) => Some(seq![s[0]] + r),
                None => None,
            });
        }
        match unquote_from(t, true) {
            Some(r) => { assert(s + r =~= seq![s[0]] + (rest + r)); },
            None => {},
        }
    }
}

/// The quoting is exact: the shell reads a quoted string back as exactly the
/// string that was quoted, whatever characters (quotes included) it holds.
pub proof fn lemma_shell_quote_roundtrip(s: Seq<char>)
    ensures
        unquote(shell_quote_spec(s)) == Some(s),
{
    let w = shell_quote_spec(s);
    assert(w.drop_first() =~= quote_body(s) + seq!['\'']);
    lemma_unquote_body(s, seq!['\'']);
    assert(seq!['\''].drop_first() =~= Seq::<char>::empty());
    assert(unquote_from(Seq::<char>::empty(), false) == Some(Seq::<char>::empty()));
    assert(unquote_from(seq!['\''], true) == unquote_from(Seq::<char>::empty(), false));
    assert(unquote_from(w, false) == unquote_from(w.drop_first(), true));
    assert(s + Seq::<char>::empty() =~= s);
}

/// `s` quoted for `sh` as a single word.
pub fn shell_quote(s: &str) -> (r: String)
    ensures
        r@ == shell_quote_spec(s@),
{
    let v = chars_of(s);
    let mut r = String::new();
    r.push('\'');
    let mut i: usize = 0;
    while i < v.len()
        invariant
            i <= v@.len(),
            r@ == seq!['\''] + quote_body(v@.take(i as int)),
        decreases v@.len() - i,
    {
        let c = v[i];
        if c == '\'' {
            r.push('\'');
            r.push('\\');
            r.push('\'');
            r.push('\'');
        } else {
            r.push(c);
        }
        proof {
            assert(v@.take(i + 1) =~= v@.take(i as int) + seq![c]);
            lemma_quote_body_concat(v@.take(i as int), seq![c]);
            assert(seq![c].drop_first() =~= Seq::<char>::empty());
            reveal_with_fuel(quote_body, 2);
            assert(quote_body(seq![c]) =~= quote_char(c));
        }
        i += 1;
        assert(r@ =~= seq!['\''] + quote_body(v@.take(i as int)));
    }
    r.push('\'');
    assert(v@.take(v@.len() as int) =~= v@);
    assert(r@ =~= shell_quote_spec(s@));
    r
}

/// `s` with ASCII capitals turned to lower case.
pub open spec fn lower(s: Seq<char>) -> Seq<char> {
    s.map_values(|c: char| ascii_lower(c))
}

/// An error text that says a terminal or a password is required, however it
/// is capitalized: the sign that a privileged command has to be retried with
/// a password.
pub open spec fn asks_for_password(err: Seq<char>) -> bool {
    contains(lower(err), "terminal is required"@) || contains(lower(err), "password is required"@)
}

pub fn needs_password(err: &str) -> (b: bool)
    ensures
        b == asks_for_password(err@),
{
    let v = chars_of(err);
    let mut low: Vec<char> = Vec::new();
    let mut i: usize = 0;
    while i < v.len()
        invariant
            i <= v@.len(),
            low@ == lower(v@.take(i as int)),
        decreases v@.len() - i,
    {
        low.push(to_ascii_lower(v[i]));
        i += 1;
        assert(low@ =~= lower(v@.take(i as int)));
    }
    assert(v@.take(v@.len() as int) =~= v@);
    let p1 = chars_of("terminal is required");
    let p2 = chars_of("password is required");
    contains_str(low.as_slice(), p1.as_slice()) || contains_str(low.as_slice(), p2.as_slice())
}

} // verus!
