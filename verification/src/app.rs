//! The front end's state and every decision it takes: what a button or a
//! finished background job does to the state, and which command or listing
//! is handed to a background job. The window, the worker threads and the
//! channel between them drive this state and carry out the jobs.
use vstd::prelude::*;
use zeroize::Zeroize;
use crate::backend::any::Backend;
use crate::backend::flatpak::Flatpak;
use crate::backend::{
    asks_for_password, needs_password, packages_view, repos_view, CommandView, PackageInfo,
    PackageManager, PackageView, PmCommand, RepoInfo, RepoView,
};
use crate::selection::Selection;
use crate::text::{chars_of, ends_with, push_str, trim, trim_chars};

verus! {

/// `Zeroize::zeroize` on a `String` (zeroize crate): overwrites the string's
/// bytes with zeros and then empties it. Claimed: the string is empty
/// afterwards. Not claimed (nothing here can state it): that the old bytes
/// were overwritten in memory.
#[verifier::external_body]
fn zeroize_string(s: &mut String)
    ensures
        final(s)@ == Seq::<char>::empty(),
{
    s.zeroize();
}

#[derive(Clone, Copy, Debug, PartialEq, Eq, Structural)]
pub enum Tab {
    Search,
    Installed,
    Repos,
    Flatpak,
    FlatpakRepos,
    Log,
}

/// Which backend an operation is for.
#[derive(Clone, Copy, Debug, PartialEq, Eq, Structural)]
pub enum Scope {
    Native,
    Flatpak,
}

/// What a background job reports back.
pub enum Msg {
    SearchResults(Scope, Vec<PackageInfo>),
    InstalledList(Scope, Vec<PackageInfo>),
    RepoList(Scope, Vec<RepoInfo>),
    Log(String),
    Error(String),
    RequirePassword(Scope, PmCommand, String),
    Done,
}

#[verifier::ext_equal]
pub enum MsgView {
    SearchResults(Scope, Seq<PackageView>),
    InstalledList(Scope, Seq<PackageView>),
    RepoList(Scope, Seq<RepoView>),
    Log(Seq<char>),
    Error(Seq<char>),
    RequirePassword(Scope, CommandView, Seq<char>),
    Done,
}

impl View for Msg {
    type V = MsgView;

    open spec fn view(&self) -> MsgView {
        match self {
            Msg::SearchResults(s, r) => MsgView::SearchResults(*s, packages_view(r@)),
            Msg::InstalledList(s, r) => MsgView::InstalledList(*s, packages_view(r@)),
            Msg::RepoList(s, r) => MsgView::RepoList(*s, repos_view(r@)),
            Msg::Log(t) => MsgView::Log(t@),
            Msg::Error(e) => MsgView::Error(e@),
            Msg::RequirePassword(s, c, l) => MsgView::RequirePassword(*s, c@, l@),
            Msg::Done => MsgView::Done,
        }
    }
}

pub open spec fn msgs_view(v: Seq<Msg>) -> Seq<MsgView> {
    v.map_values(|m: Msg| m@)
}

/// A command to run in the background, with the label the log shows for it.
pub struct ActionJob {
    pub scope: Scope,
    pub label: String,
    pub cmd: PmCommand,
}

/// Work for a background thread.
pub enum Job {
    Search { scope: Scope, query: String, system: bool },
    ListInstalled { scope: Scope, system: bool, password: Option<String> },
    ListRepos { scope: Scope, system: bool, password: Option<String> },
}

pub struct App {
    pub native: Backend,
    pub flatpak_available: bool,
    pub tab: Tab,
    pub dark_mode: bool,
    pub search_query: String,
    pub search_results: Vec<PackageInfo>,
    pub installed: Vec<PackageInfo>,
    pub repos: Vec<RepoInfo>,
    pub fp_query: String,
    pub fp_results: Vec<PackageInfo>,
    pub fp_repos: Vec<RepoInfo>,
    pub new_repo_input: String,
    pub new_fp_repo_input: String,
    pub fp_system: bool,
    pub select_mode: bool,
    pub selected: Selection,
    pub show_pw_prompt: bool,
    pub pw_input: String,
    pub pending_cmd: Option<(Scope, PmCommand, String)>,
    pub log: String,
    pub busy: bool,
}

/// `s` appended to the log, with a newline after it unless it ends with one.
pub open spec fn logged(log: Seq<char>, s: Seq<char>) -> Seq<char> {
    if ends_with(s, "\n"@) {
        log + s
    } else {
        log + s + "\n"@
    }
}

/// `cmd`, with the password `pw` attached when `attach` holds.
pub open spec fn with_pw(cmd: CommandView, attach: bool, pw: Seq<char>) -> CommandView {
    if attach {
        CommandView { password: Some(pw), ..cmd }
    } else {
        cmd
    }
}

/// What launching the action `cmd` (labelled `label`) does: a command that
/// needs root but carries no password is held back and the password prompt
/// is shown; any other becomes a job, the front end turns busy and the
/// password field is wiped. Nothing else changes.
pub open spec fn launched(old: App, new: App, r: Option<ActionJob>, scope: Scope, label: Seq<char>, cmd: CommandView) -> bool {
    if cmd.needs_root && cmd.password is None {
        &&& r is None
        &&& new.pending_cmd matches Some((s, c, l)) && s == scope && c@ == cmd && l@ == label
        &&& new == App { pending_cmd: new.pending_cmd, show_pw_prompt: true, ..old }
    } else {
        &&& r matches Some(j) && j.scope == scope && j.label@ == label && j.cmd@ == cmd
        &&& new.pw_input@ == Seq::<char>::empty()
        &&& new == App { busy: true, pw_input: new.pw_input, ..old }
    }
}

/// The log only grows, and after each addition it ends with a newline.
pub proof fn lemma_log_grows_by_lines(log: Seq<char>, s: Seq<char>)
    ensures
        logged(log, s).take(log.len() as int) == log,
        ends_with(logged(log, s), "\n"@),
{
    reveal_strlit("\n");
    assert("\n"@ =~= seq!['\n']);
    let l = logged(log, s);
    assert(l.take(log.len() as int) =~= log);
    if ends_with(s, "\n"@) {
        assert(l.skip(l.len() - 1) =~= s.skip(s.len() - 1));
    } else {
        assert(l.skip(l.len() - 1) =~= seq!['\n']);
    }
}

/// `prefix` followed by `name`.
pub fn label(prefix: &str, name: &str) -> (s: String)
    ensures
        s@ == prefix@ + name@,
{
    let mut s = prefix.to_owned();
    push_str(&mut s, name);
    s
}

pub open spec fn opt_view(o: Option<String>) -> Option<Seq<char>> {
    match o {
        Some(s) => Some(s@),
        None => None,
    }
}

/// The password field's content, or nothing when it is empty.
pub open spec fn typed_password(pw: Seq<char>) -> Option<Seq<char>> {
    if pw.len() == 0 { None } else { Some(pw) }
}

pub open spec fn list_apps_label() -> Seq<char> {
    "list flatpaks (system)"@
}

pub open spec fn list_remotes_label() -> Seq<char> {
    "list flatpak remotes (system)"@
}

/// The root-needing `flatpak list` held back for a password.
pub open spec fn list_apps_cmd(system: bool) -> CommandView {
    crate::backend::command(
        "flatpak"@,
        seq!["list"@, crate::backend::flatpak::scope_spec(system), "--app"@, "--columns=application,name,version"@],
        true,
    )
}

/// The root-needing `flatpak remotes` held back for a password.
pub open spec fn list_remotes_cmd(system: bool) -> CommandView {
    crate::backend::command(
        "flatpak"@,
        seq!["remotes"@, crate::backend::flatpak::scope_spec(system), "--columns=name,url,title"@],
        true,
    )
}

impl App {
    /// The initial state: the search tab, dark theme, nothing listed yet.
    pub fn new(native: Backend, flatpak_available: bool) -> (a: App)
        ensures
            a.native == native,
            a.flatpak_available == flatpak_available,
            a.tab == Tab::Search,
            a.dark_mode,
            a.search_query@.len() == 0,
            a.search_results@.len() == 0,
            a.installed@.len() == 0,
            a.repos@.len() == 0,
            a.fp_query@.len() == 0,
            a.fp_results@.len() == 0,
            a.fp_repos@.len() == 0,
            a.new_repo_input@.len() == 0,
            a.new_fp_repo_input@.len() == 0,
            !a.fp_system,
            !a.select_mode,
            a.selected.names_set() == Set::<Seq<char>>::empty(),
            !a.show_pw_prompt,
            a.pw_input@.len() == 0,
            a.pending_cmd is None,
            a.log@.len() == 0,
            !a.busy,
    {
        App {
            native,
            flatpak_available,
            tab: Tab::Search,
            dark_mode: true,
            search_query: String::new(),
            search_results: Vec::new(),
            installed: Vec::new(),
            repos: Vec::new(),
            fp_query: String::new(),
            fp_results: Vec::new(),
            fp_repos: Vec::new(),
            new_repo_input: String::new(),
            new_fp_repo_input: String::new(),
            fp_system: false,
            select_mode: false,
            selected: Selection::new(),
            show_pw_prompt: false,
            pw_input: String::new(),
            pending_cmd: None,
            log: String::new(),
            busy: false,
        }
    }

    /// Appends `s` to the log, ending it with a newline if it has none.
    pub fn append_log(&mut self, s: &str)
        ensures
            final(self).log@ == logged(old(self).log@, s@),
            *final(self) == (App { log: final(self).log, ..*old(self) }),
    {
        push_str(&mut self.log, s);
        let v = chars_of(s);
        let nl = chars_of("\n");
        if !crate::text::has_suffix(v.as_slice(), nl.as_slice()) {
            self.log.push('\n');
            assert(self.log@ =~= logged(old(self).log@, s@)) by { reveal_strlit("\n"); }
        }
    }

    /// The backend that serves `scope`.
    pub fn backend_for(&self, scope: Scope) -> (b: Backend)
        ensures
            b == (match scope {
                Scope::Native => self.native,
                Scope::Flatpak => Backend::Flatpak,
            }),
    {
        match scope {
            Scope::Native => self.native,
            Scope::Flatpak => Backend::Flatpak,
        }
    }

    /// Launches the action `cmd` unless it needs root and carries no
    /// password, in which case it waits for the password prompt.
    pub fn spawn_action(&mut self, scope: Scope, label: String, cmd: PmCommand) -> (r: Option<ActionJob>)
        ensures
            launched(*old(self), *final(self), r, scope, label@, cmd@),
    {
        if cmd.needs_root && cmd.password.is_none() {
            self.pending_cmd = Some((scope, cmd, label));
            self.show_pw_prompt = true;
            return None;
        }
        self.busy = true;
        zeroize_string(&mut self.pw_input);
        Some(ActionJob { scope, label, cmd })
    }

    /// Starts a search for `query` unless it is blank.
    pub fn spawn_search(&mut self, scope: Scope, query: String, system: bool) -> (r: Option<Job>)
        ensures
            trim(query@).len() == 0 ==> r is None && *final(self) == *old(self),
            trim(query@).len() != 0 ==> r == Some(Job::Search { scope, query, system })
                && *final(self) == (App { busy: true, ..*old(self) }),
    {
        let q = chars_of(query.as_str());
        let t = trim_chars(q.as_slice());
        if t.len() == 0 {
            return None;
        }
        self.busy = true;
        Some(Job::Search { scope, query, system })
    }

    /// Starts listing the installed packages, except that a system-wide
    /// Flatpak listing with no password waits for the password prompt.
    pub fn spawn_list_installed(&mut self, scope: Scope, system: bool, password: Option<String>) -> (r: Option<Job>)
        ensures
            scope == Scope::Flatpak && system && password is None ==> {
                &&& r is None
                &&& final(self).pending_cmd matches Some((s, c, l))
                    && s == scope && c@ == list_apps_cmd(true) && l@ == list_apps_label()
                &&& *final(self) == (App { pending_cmd: final(self).pending_cmd, show_pw_prompt: true, ..*old(self) })
            },
            !(scope == Scope::Flatpak && system && password is None) ==>
                r == Some(Job::ListInstalled { scope, system, password })
                && *final(self) == (App { busy: true, ..*old(self) }),
    {
        if scope == Scope::Flatpak && system && password.is_none() {
            let cmd = Flatpak::list_apps_command(true, true);
            let l = "list flatpaks (system)".to_owned();
            self.pending_cmd = Some((scope, cmd, l));
            self.show_pw_prompt = true;
            return None;
        }
        self.busy = true;
        Some(Job::ListInstalled { scope, system, password })
    }

    /// Starts listing the repositories, except that a system-wide Flatpak
    /// listing with no password waits for the password prompt.
    pub fn spawn_list_repos(&mut self, scope: Scope, system: bool, password: Option<String>) -> (r: Option<Job>)
        ensures
            scope == Scope::Flatpak && system && password is None ==> {
                &&& r is None
                &&& final(self).pending_cmd matches Some((s, c, l))
                    && s == scope && c@ == list_remotes_cmd(true) && l@ == list_remotes_label()
                &&& *final(self) == (App { pending_cmd: final(self).pending_cmd, show_pw_prompt: true, ..*old(self) })
            },
            !(scope == Scope::Flatpak && system && password is None) ==>
                r == Some(Job::ListRepos { scope, system, password })
                && *final(self) == (App { busy: true, ..*old(self) }),
    {
        if scope == Scope::Flatpak && system && password.is_none() {
            let cmd = Flatpak::list_remotes_command(true, true);
            let l = "list flatpak remotes (system)".to_owned();
            self.pending_cmd = Some((scope, cmd, l));
            self.show_pw_prompt = true;
            return None;
        }
        self.busy = true;
        Some(Job::ListRepos { scope, system, password })
    }

    /// Applies what a background job reported; `flatpak_found` is whether
    /// `flatpak` is on the search path now (looked at when a job is done).
    pub fn handle(&mut self, msg: Msg, flatpak_found: bool)
        ensures
            match msg {
                Msg::SearchResults(Scope::Native, r) => *final(self) == (App { search_results: r, ..*old(self) }),
                Msg::SearchResults(Scope::Flatpak, r) => *final(self) == (App { fp_results: r, ..*old(self) }),
                Msg::InstalledList(Scope::Native, r) => *final(self) == (App { installed: r, ..*old(self) }),
                Msg::InstalledList(Scope::Flatpak, r) => *final(self) == (App { fp_results: r, ..*old(self) }),
                Msg::RepoList(Scope::Native, r) => *final(self) == (App { repos: r, ..*old(self) }),
                Msg::RepoList(Scope::Flatpak, r) => *final(self) == (App { fp_repos: r, ..*old(self) }),
                Msg::Log(s) => final(self).log@ == logged(old(self).log@, s@)
                    && *final(self) == (App { log: final(self).log, ..*old(self) }),
                Msg::Error(e) => final(self).log@ == logged(old(self).log@, "ERROR: "@ + e@)
                    && *final(self) == (App { log: final(self).log, ..*old(self) }),
                Msg::RequirePassword(scope, cmd, label) => final(self).log@ == logged(
                    old(self).log@,
                    "Authentication required: prompting for password..."@,
                ) && *final(self) == (App {
                    pending_cmd: Some((scope, cmd, label)),
                    show_pw_prompt: true,
                    log: final(self).log,
                    ..*old(self)
                }),
                Msg::Done => *final(self) == (App { busy: false, flatpak_available: flatpak_found, ..*old(self) }),
            },
    {
        match msg {
            Msg::SearchResults(Scope::Native, r) => { self.search_results = r; },
            Msg::SearchResults(Scope::Flatpak, r) => { self.fp_results = r; },
            Msg::InstalledList(Scope::Native, r) => { self.installed = r; },
            Msg::InstalledList(Scope::Flatpak, r) => { self.fp_results = r; },
            Msg::RepoList(Scope::Native, r) => { self.repos = r; },
            Msg::RepoList(Scope::Flatpak, r) => { self.fp_repos = r; },
            Msg::Log(s) => { self.append_log(s.as_str()); },
            Msg::Error(e) => {
                let text = label("ERROR: ", e.as_str());
                self.append_log(text.as_str());
            },
            Msg::RequirePassword(scope, cmd, label) => {
                self.pending_cmd = Some((scope, cmd, label));
                self.show_pw_prompt = true;
                self.append_log("Authentication required: prompting for password...");
            },
            Msg::Done => {
                self.busy = false;
                self.flatpak_available = flatpak_found;
            },
        }
    }
}


// ---------------------------------------------------------------------------
// Background jobs
// ---------------------------------------------------------------------------

/// What a finished search reports.
pub fn search_outcome(scope: Scope, res: Result<Vec<PackageInfo>, String>) -> (m: Msg)
    ensures
        m == match res {
            Ok(r) => Msg::SearchResults(scope, r),
            Err(e) => Msg::Error(e),
        },
{
    match res {
        Ok(r) => Msg::SearchResults(scope, r),
        Err(e) => Msg::Error(e),
    }
}

/// The command a listing of installed packages runs with a password: only
/// Flatpak listings run one (`flatpak list`, fed the password through
/// `sudo -S`); with no password, or for the native backend, the backend's
/// own listing runs.
pub fn installed_listing_command(scope: Scope, system: bool, password: Option<String>) -> (r: Option<PmCommand>)
    ensures
        match (scope, password) {
            (Scope::Flatpak, Some(pw)) => r matches Some(c) && c@ == with_pw(list_apps_cmd(system), true, pw@),
            _ => r is None,
        },
{
    match (scope, password) {
        (Scope::Flatpak, Some(pw)) => Some(Flatpak::list_apps_command(system, true).with_password(pw)),
        _ => None,
    }
}

/// The command a listing of repositories runs with a password, likewise.
pub fn repos_listing_command(scope: Scope, system: bool, password: Option<String>) -> (r: Option<PmCommand>)
    ensures
        match (scope, password) {
            (Scope::Flatpak, Some(pw)) => r matches Some(c) && c@ == with_pw(list_remotes_cmd(system), true, pw@),
            _ => r is None,
        },
{
    match (scope, password) {
        (Scope::Flatpak, Some(pw)) => Some(Flatpak::list_remotes_command(system, true).with_password(pw)),
        _ => None,
    }
}

/// What a finished listing of installed packages reports: the list, or, for
/// a Flatpak listing refused for want of a terminal or password, a request
/// for the password to retry it with, or else the error.
pub fn installed_outcome(scope: Scope, system: bool, res: Result<Vec<PackageInfo>, String>) -> (m: Msg)
    ensures
        match res {
            Ok(r) => m == Msg::InstalledList(scope, r),
            Err(e) => if scope == Scope::Flatpak && asks_for_password(e@) {
                m@ == MsgView::RequirePassword(scope, list_apps_cmd(system), list_apps_label())
            } else {
                m == Msg::Error(e)
            },
        },
{
    match res {
        Ok(r) => Msg::InstalledList(scope, r),
        Err(e) => {
            if scope == Scope::Flatpak && needs_password(e.as_str()) {
                Msg::RequirePassword(scope, Flatpak::list_apps_command(system, true), "list flatpaks (system)".to_owned())
            } else {
                Msg::Error(e)
            }
        },
    }
}

/// What a finished listing of repositories reports, likewise.
pub fn repos_outcome(scope: Scope, system: bool, res: Result<Vec<RepoInfo>, String>) -> (m: Msg)
    ensures
        match res {
            Ok(r) => m == Msg::RepoList(scope, r),
            Err(e) => if scope == Scope::Flatpak && asks_for_password(e@) {
                m@ == MsgView::RequirePassword(scope, list_remotes_cmd(system), list_remotes_label())
            } else {
                m == Msg::Error(e)
            },
        },
{
    match res {
        Ok(r) => Msg::RepoList(scope, r),
        Err(e) => {
            if scope == Scope::Flatpak && needs_password(e.as_str()) {
                Msg::RequirePassword(scope, Flatpak::list_remotes_command(system, true), "list flatpak remotes (system)".to_owned())
            } else {
                Msg::Error(e)
            }
        },
    }
}

/// The log line an action starts with: "$ <label>".
pub fn action_started(label: &str) -> (m: Msg)
    ensures
        m@ == MsgView::Log("$ "@ + label@ + "\n"@),
{
    let mut s = "$ ".to_owned();
    push_str(&mut s, label);
    push_str(&mut s, "\n");
    Msg::Log(s)
}

/// What an executed action reports: its output and a "done" line; or, when
/// it failed for want of a terminal or a password, a request for the
/// password to retry it with; or else the failure. The password the command
/// carried is wiped once the command has run.
pub fn action_outcome(scope: Scope, label: String, cmd: PmCommand, res: Result<String, String>) -> (r: Vec<Msg>)
    ensures
        msgs_view(r@) == match res {
            Ok(out) => seq![MsgView::Log(out@), MsgView::Log("-- "@ + label@ + ": done --\n"@)],
            Err(e) => if asks_for_password(e@) {
                seq![MsgView::RequirePassword(scope, cmd@, label@)]
            } else {
                seq![MsgView::Error(label@ + " failed: "@ + e@)]
            },
        },
{
    let mut r: Vec<Msg> = Vec::new();
    match res {
        Ok(out) => {
            r.push(Msg::Log(out));
            let mut done = "-- ".to_owned();
            push_str(&mut done, label.as_str());
            push_str(&mut done, ": done --\n");
            r.push(Msg::Log(done));
        },
        Err(e) => {
            if needs_password(e.as_str()) {
                r.push(Msg::RequirePassword(scope, cmd.duplicate(), label.clone()));
            } else {
                let mut text = label.clone();
                push_str(&mut text, " failed: ");
                push_str(&mut text, e.as_str());
                r.push(Msg::Error(text));
            }
        },
    }
    if let Some(mut pw) = cmd.password {
        zeroize_string(&mut pw);
    }
    assert(msgs_view(r@) =~= match res {
        Ok(out) => seq![MsgView::Log(out@), MsgView::Log("-- "@ + label@ + ": done --\n"@)],
        Err(e) => if asks_for_password(e@) {
            seq![MsgView::RequirePassword(scope, cmd@, label@)]
        } else {
            seq![MsgView::Error(label@ + " failed: "@ + e@)]
        },
    });
    r
}


// ---------------------------------------------------------------------------
// What the controls do
// ---------------------------------------------------------------------------

/// Which action "Install Selected" or "Remove Selected" takes on each
/// ticked name.
#[derive(Clone, Copy, Debug, PartialEq, Eq, Structural)]
pub enum SelectedAction {
    /// "Install Selected" on the native search view.
    InstallNative,
    /// "Remove Selected" on the installed view.
    RemoveNative,
    /// "Install Selected" on the Flatpak view.
    InstallFlatpak,
}

/// What acting on the ticked name `name` launches from the state `a`, as a
/// single click on that package would: its scope, its label and its command.
pub open spec fn action_for(kind: SelectedAction, a: App, name: Seq<char>) -> (Scope, Seq<char>, CommandView) {
    match kind {
        SelectedAction::InstallNative => (Scope::Native, "install "@ + name, a.native.install_spec(name, false)),
        SelectedAction::RemoveNative => (Scope::Native, "remove "@ + name, a.native.remove_spec(name, false)),
        SelectedAction::InstallFlatpak => (
            Scope::Flatpak,
            "install flatpak "@ + name,
            with_pw(Backend::Flatpak.install_spec(name, a.fp_system), a.fp_system && a.pw_input@.len() > 0, a.pw_input@),
        ),
    }
}

/// The jobs among the results of a series of launches, in order.
pub open spec fn jobs_of(rs: Seq<Option<ActionJob>>) -> Seq<ActionJob>
    decreases rs.len(),
{
    if rs.len() == 0 {
        Seq::empty()
    } else {
        match rs.last() {
            Some(j) => jobs_of(rs.drop_last()).push(j),
            None => jobs_of(rs.drop_last()),
        }
    }
}

/// The names `names` were acted on one after another, starting from `a0`
/// and passing through the states `trace`, the launch for `names[k]` giving
/// `rs[k]`; the last state is `a1`, and `jobs` are the launches that ran.
pub open spec fn acted_in_turn(
    kind: SelectedAction,
    a0: App,
    a1: App,
    jobs: Seq<ActionJob>,
    names: Seq<Seq<char>>,
    trace: Seq<App>,
    rs: Seq<Option<ActionJob>>,
) -> bool {
    &&& trace.len() == names.len() + 1
    &&& rs.len() == names.len()
    &&& trace[0] == a0
    &&& trace[names.len() as int] == a1
    &&& forall|k: int| 0 <= k < names.len() ==> launched(
        trace[k],
        trace[k + 1],
        #[trigger] rs[k],
        action_for(kind, trace[k], names[k]).0,
        action_for(kind, trace[k], names[k]).1,
        action_for(kind, trace[k], names[k]).2,
    )
    &&& jobs == jobs_of(rs)
}

/// What "Install Selected" / "Remove Selected" does: the selection is
/// emptied, then every name that was ticked, each once and in some order,
/// is acted on in turn exactly as a single click on it would act; the jobs
/// are the launches that ran.
pub open spec fn acted_on_selection(kind: SelectedAction, old: App, new: App, jobs: Seq<ActionJob>) -> bool {
    &&& new.selected.names_set() == Set::<Seq<char>>::empty()
    &&& exists|names: Seq<Seq<char>>, trace: Seq<App>, rs: Seq<Option<ActionJob>>|
        #[trigger] acted_in_turn(kind, App { selected: new.selected, ..old }, new, jobs, names, trace, rs)
            && names.no_duplicates() && names.to_set() == old.selected.names_set()
}

pub open spec fn flathub_remote() -> Seq<char> {
    "flathub https://flathub.org/repo/flathub.flatpakrepo"@
}

/// What "Run" on the password prompt does: the held-back command is
/// launched as `launched` says, with the typed password attached if one was
/// typed, from a state in which the prompt is closed.
pub open spec fn submitted(old: App, new: App, r: Option<ActionJob>) -> bool {
    match old.pending_cmd {
        Some((scope, cmd, label)) => launched(
            App { show_pw_prompt: false, pending_cmd: None, ..old },
            new,
            r,
            scope,
            label@,
            with_pw(cmd@, old.pw_input@.len() > 0, old.pw_input@),
        ),
        None => r is None && new == (App { pending_cmd: None, ..old }),
    }
}

/// A privileged action with no password is held back, not run; once a
/// password is typed and submitted, that same command runs, under `sudo -S`
/// with the password (and a newline) on its standard input, and the
/// password field is wiped.
pub proof fn lemma_prompt_then_submit(
    a0: App,
    a1: App,
    a2: App,
    r1: Option<ActionJob>,
    r2: Option<ActionJob>,
    scope: Scope,
    label: Seq<char>,
    cmd: CommandView,
    pkexec_available: bool,
)
    requires
        launched(a0, a1, r1, scope, label, cmd),
        cmd.needs_root,
        cmd.password is None,
        a1.pw_input@.len() > 0,
        submitted(a1, a2, r2),
    ensures
        r1 is None,
        a1.show_pw_prompt,
        r2 matches Some(j) && j.scope == scope && j.label@ == label
            && j.cmd@ == (CommandView { password: Some(a1.pw_input@), ..cmd })
            && crate::backend::launch_spec(j.cmd@, pkexec_available) == (
                "sudo"@,
                seq!["-S"@, cmd.program] + cmd.args,
                Some(a1.pw_input@.push('\n')),
            ),
        !a2.show_pw_prompt,
        a2.pending_cmd is None,
        a2.pw_input@.len() == 0,
{
}

impl App {
    /// "Run" on the password prompt (or Enter in its field): the held-back
    /// command is launched, with the typed password attached if one was
    /// typed, and the prompt closes.
    pub fn submit_password(&mut self) -> (r: Option<ActionJob>)
        ensures
            submitted(*old(self), *final(self), r),
    {
        match self.pending_cmd.take() {
            Some((scope, cmd, label)) => {
                let cmd = if !self.pw_input.as_str().is_empty() {
                    cmd.with_password(self.pw_input.clone())
                } else {
                    cmd
                };
                self.show_pw_prompt = false;
                self.pending_cmd = None;
                self.spawn_action(scope, label, cmd)
            },
            None => None,
        }
    }

    /// "Cancel" on the password prompt.
    pub fn cancel_password(&mut self)
        ensures
            *final(self) == (App { show_pw_prompt: false, pending_cmd: None, ..*old(self) }),
    {
        self.show_pw_prompt = false;
        self.pending_cmd = None;
    }

    /// The dark/light theme toggle.
    pub fn toggle_theme(&mut self)
        ensures
            *final(self) == (App { dark_mode: !old(self).dark_mode, ..*old(self) }),
    {
        self.dark_mode = !self.dark_mode;
    }

    /// "Clear" on the log.
    pub fn clear_log(&mut self)
        ensures
            final(self).log@ == Seq::<char>::empty(),
            *final(self) == (App { log: final(self).log, ..*old(self) }),
    {
        self.log = String::new();
    }

    /// Ticks or unticks a package in select mode.
    pub fn set_selected(&mut self, name: &str, checked: bool)
        ensures
            final(self).selected.names_set() == if checked {
                old(self).selected.names_set().insert(name@)
            } else {
                old(self).selected.names_set().remove(name@)
            },
            *final(self) == (App { selected: final(self).selected, ..*old(self) }),
    {
        self.selected.set_checked(name, checked);
    }

    /// The ticked names, each once, emptying the selection ("Install
    /// Selected"/"Remove Selected" then act on each).
    pub fn take_selected(&mut self) -> (r: Vec<String>)
        ensures
            crate::backend::strings_view(r@).no_duplicates(),
            crate::backend::strings_view(r@).to_set() == old(self).selected.names_set(),
            final(self).selected.names_set() == Set::<Seq<char>>::empty(),
            *final(self) == (App { selected: final(self).selected, ..*old(self) }),
    {
        self.selected.take_all()
    }

    /// "Search" on the native search view.
    pub fn search_native(&mut self) -> (r: Option<Job>)
        ensures
            trim(old(self).search_query@).len() == 0 ==> r is None && *final(self) == *old(self),
            trim(old(self).search_query@).len() != 0 ==> (r matches Some(Job::Search { scope, query, system })
                && scope == Scope::Native && query@ == old(self).search_query@ && !system)
                && *final(self) == (App { busy: true, ..*old(self) }),
    {
        let q = self.search_query.clone();
        self.spawn_search(Scope::Native, q, false)
    }

    /// "Search" on the Flatpak view, in the chosen scope.
    pub fn search_flatpak(&mut self) -> (r: Option<Job>)
        ensures
            trim(old(self).fp_query@).len() == 0 ==> r is None && *final(self) == *old(self),
            trim(old(self).fp_query@).len() != 0 ==> (r matches Some(Job::Search { scope, query, system })
                && scope == Scope::Flatpak && query@ == old(self).fp_query@ && system == old(self).fp_system)
                && *final(self) == (App { busy: true, ..*old(self) }),
    {
        let q = self.fp_query.clone();
        let system = self.fp_system;
        self.spawn_search(Scope::Flatpak, q, system)
    }

    /// "Refresh package index".
    pub fn update_index(&mut self) -> (r: Option<ActionJob>)
        ensures
            launched(*old(self), *final(self), r, Scope::Native, "update package index"@,
                old(self).native.update_index_spec(false)),
    {
        let cmd = self.native.update_index_cmd(false);
        self.spawn_action(Scope::Native, "update package index".to_owned(), cmd)
    }

    /// "Upgrade all".
    pub fn upgrade_all(&mut self) -> (r: Option<ActionJob>)
        ensures
            launched(*old(self), *final(self), r, Scope::Native, "upgrade all packages"@,
                old(self).native.upgrade_all_spec(false)),
    {
        let cmd = self.native.upgrade_all_cmd(false);
        self.spawn_action(Scope::Native, "upgrade all packages".to_owned(), cmd)
    }

    /// "Install" on a native package.
    pub fn install_native(&mut self, name: &str) -> (r: Option<ActionJob>)
        ensures
            launched(*old(self), *final(self), r, Scope::Native, "install "@ + name@,
                old(self).native.install_spec(name@, false)),
    {
        let cmd = self.native.install_cmd(name, false);
        self.spawn_action(Scope::Native, label("install ", name), cmd)
    }

    /// "Remove" on a native package.
    pub fn remove_native(&mut self, name: &str) -> (r: Option<ActionJob>)
        ensures
            launched(*old(self), *final(self), r, Scope::Native, "remove "@ + name@,
                old(self).native.remove_spec(name@, false)),
    {
        let cmd = self.native.remove_cmd(name, false);
        self.spawn_action(Scope::Native, label("remove ", name), cmd)
    }

    /// "Refresh installed list".
    pub fn refresh_installed(&mut self) -> (r: Option<Job>)
        ensures
            r == Some(Job::ListInstalled { scope: Scope::Native, system: false, password: None }),
            *final(self) == (App { busy: true, ..*old(self) }),
    {
        self.spawn_list_installed(Scope::Native, false, None)
    }

    /// "Refresh repo list".
    pub fn refresh_repos(&mut self) -> (r: Option<Job>)
        ensures
            r == Some(Job::ListRepos { scope: Scope::Native, system: false, password: None }),
            *final(self) == (App { busy: true, ..*old(self) }),
    {
        self.spawn_list_repos(Scope::Native, false, None)
    }

    /// "Add" on the repositories view: adds the typed repository, unless the
    /// field is blank, and empties the field.
    pub fn add_native_repo(&mut self) -> (r: Option<ActionJob>)
        ensures
            trim(old(self).new_repo_input@).len() == 0 ==> r is None && *final(self) == *old(self),
            trim(old(self).new_repo_input@).len() != 0 ==> final(self).new_repo_input@ == Seq::<char>::empty()
                && launched(
                    *old(self),
                    App { new_repo_input: old(self).new_repo_input, ..*final(self) },
                    r,
                    Scope::Native,
                    "add repo "@ + old(self).new_repo_input@,
                    old(self).native.add_repo_spec(old(self).new_repo_input@, false),
                ),
    {
        let v = chars_of(self.new_repo_input.as_str());
        let t = trim_chars(v.as_slice());
        if t.len() == 0 {
            return None;
        }
        let repo = self.new_repo_input.clone();
        let l = label("add repo ", repo.as_str());
        let cmd = self.native.add_repo_cmd(repo.as_str(), false);
        let r = self.spawn_action(Scope::Native, l, cmd);
        self.new_repo_input = String::new();
        r
    }

    /// "Remove" on a native repository.
    pub fn remove_native_repo(&mut self, id: &str) -> (r: Option<ActionJob>)
        ensures
            launched(*old(self), *final(self), r, Scope::Native, "remove repo "@ + id@,
                old(self).native.remove_repo_spec(id@, true)),
    {
        let cmd = self.native.remove_repo_cmd(id, true);
        self.spawn_action(Scope::Native, label("remove repo ", id), cmd)
    }

    /// "Install Flatpak via <backend>" when flatpak is missing.
    pub fn install_flatpak_itself(&mut self) -> (r: Option<ActionJob>)
        ensures
            launched(*old(self), *final(self), r, Scope::Native, "install flatpak"@,
                old(self).native.install_spec("flatpak"@, true)),
    {
        let cmd = self.native.install_cmd("flatpak", true);
        self.spawn_action(Scope::Native, "install flatpak".to_owned(), cmd)
    }

    fn typed_password_exec(&self) -> (r: Option<String>)
        ensures
            opt_view(r) == typed_password(self.pw_input@),
    {
        if self.pw_input.as_str().is_empty() { None } else { Some(self.pw_input.clone()) }
    }

    /// "List installed (system)", with the typed password if any.
    pub fn list_flatpaks_system(&mut self) -> (r: Option<Job>)
        ensures
            old(self).pw_input@.len() == 0 ==> {
                &&& r is None
                &&& final(self).pending_cmd matches Some((s, c, l))
                    && s == Scope::Flatpak && c@ == list_apps_cmd(true) && l@ == list_apps_label()
                &&& *final(self) == (App { pending_cmd: final(self).pending_cmd, show_pw_prompt: true, ..*old(self) })
            },
            old(self).pw_input@.len() > 0 ==> (r matches Some(Job::ListInstalled { scope, system, password })
                && scope == Scope::Flatpak && system && opt_view(password) == Some(old(self).pw_input@))
                && *final(self) == (App { busy: true, ..*old(self) }),
    {
        let pw = self.typed_password_exec();
        self.spawn_list_installed(Scope::Flatpak, true, pw)
    }

    /// "Refresh remotes (system)", with the typed password if any.
    pub fn refresh_remotes_system(&mut self) -> (r: Option<Job>)
        ensures
            old(self).pw_input@.len() == 0 ==> {
                &&& r is None
                &&& final(self).pending_cmd matches Some((s, c, l))
                    && s == Scope::Flatpak && c@ == list_remotes_cmd(true) && l@ == list_remotes_label()
                &&& *final(self) == (App { pending_cmd: final(self).pending_cmd, show_pw_prompt: true, ..*old(self) })
            },
            old(self).pw_input@.len() > 0 ==> (r matches Some(Job::ListRepos { scope, system, password })
                && scope == Scope::Flatpak && system && opt_view(password) == Some(old(self).pw_input@))
                && *final(self) == (App { busy: true, ..*old(self) }),
    {
        let pw = self.typed_password_exec();
        self.spawn_list_repos(Scope::Flatpak, true, pw)
    }

    /// "List installed" in user scope.
    pub fn list_flatpaks(&mut self) -> (r: Option<Job>)
        ensures
            r == Some(Job::ListInstalled { scope: Scope::Flatpak, system: false, password: None }),
            *final(self) == (App { busy: true, ..*old(self) }),
    {
        self.spawn_list_installed(Scope::Flatpak, false, None)
    }

    /// "Refresh remotes" in user scope.
    pub fn refresh_remotes(&mut self) -> (r: Option<Job>)
        ensures
            r == Some(Job::ListRepos { scope: Scope::Flatpak, system: false, password: None }),
            *final(self) == (App { busy: true, ..*old(self) }),
    {
        self.spawn_list_repos(Scope::Flatpak, false, None)
    }

    /// "Refresh remotes" on the remotes view, in the chosen scope, with the
    /// typed password when that scope is system-wide.
    pub fn refresh_remotes_view(&mut self) -> (r: Option<Job>)
        ensures
            old(self).fp_system && old(self).pw_input@.len() == 0 ==> {
                &&& r is None
                &&& final(self).pending_cmd matches Some((s, c, l))
                    && s == Scope::Flatpak && c@ == list_remotes_cmd(true) && l@ == list_remotes_label()
                &&& *final(self) == (App { pending_cmd: final(self).pending_cmd, show_pw_prompt: true, ..*old(self) })
            },
            !(old(self).fp_system && old(self).pw_input@.len() == 0) ==> (r matches Some(Job::ListRepos { scope, system, password })
                && scope == Scope::Flatpak && system == old(self).fp_system
                && opt_view(password) == (if old(self).fp_system { Some(old(self).pw_input@) } else { None }))
                && *final(self) == (App { busy: true, ..*old(self) }),
    {
        let pw = if self.fp_system { self.typed_password_exec() } else { None };
        let system = self.fp_system;
        self.spawn_list_repos(Scope::Flatpak, system, pw)
    }

    /// `cmd` with the typed password attached when the Flatpak scope is
    /// system-wide and a password was typed.
    fn attach_password(&self, cmd: PmCommand) -> (c: PmCommand)
        ensures
            c@ == with_pw(cmd@, self.fp_system && self.pw_input@.len() > 0, self.pw_input@),
    {
        if self.fp_system && !self.pw_input.as_str().is_empty() {
            cmd.with_password(self.pw_input.clone())
        } else {
            cmd
        }
    }

    /// "Update all flatpaks", in the chosen scope.
    pub fn update_all_flatpaks(&mut self) -> (r: Option<ActionJob>)
        ensures
            launched(*old(self), *final(self), r, Scope::Flatpak, "update all flatpaks"@,
                Backend::Flatpak.upgrade_all_spec(old(self).fp_system)),
    {
        let cmd = Backend::Flatpak.upgrade_all_cmd(self.fp_system);
        self.spawn_action(Scope::Flatpak, "update all flatpaks".to_owned(), cmd)
    }

    /// "Install" on a Flatpak application.
    pub fn install_flatpak(&mut self, id: &str) -> (r: Option<ActionJob>)
        ensures
            launched(*old(self), *final(self), r, Scope::Flatpak, "install flatpak "@ + id@,
                with_pw(Backend::Flatpak.install_spec(id@, old(self).fp_system),
                    old(self).fp_system && old(self).pw_input@.len() > 0, old(self).pw_input@)),
    {
        let cmd = Backend::Flatpak.install_cmd(id, self.fp_system);
        let cmd = self.attach_password(cmd);
        self.spawn_action(Scope::Flatpak, label("install flatpak ", id), cmd)
    }

    /// "Remove" on a Flatpak application.
    pub fn remove_flatpak(&mut self, id: &str) -> (r: Option<ActionJob>)
        ensures
            launched(*old(self), *final(self), r, Scope::Flatpak, "remove flatpak "@ + id@,
                with_pw(Backend::Flatpak.remove_spec(id@, old(self).fp_system),
                    old(self).fp_system && old(self).pw_input@.len() > 0, old(self).pw_input@)),
    {
        let cmd = Backend::Flatpak.remove_cmd(id, self.fp_system);
        let cmd = self.attach_password(cmd);
        self.spawn_action(Scope::Flatpak, label("remove flatpak ", id), cmd)
    }

    /// "Add" on the remotes view: adds the typed "<name> <url>" remote,
    /// unless the field is blank, and empties the field.
    pub fn add_flatpak_remote(&mut self) -> (r: Option<ActionJob>)
        ensures
            trim(old(self).new_fp_repo_input@).len() == 0 ==> r is None && *final(self) == *old(self),
            trim(old(self).new_fp_repo_input@).len() != 0 ==> final(self).new_fp_repo_input@ == Seq::<char>::empty()
                && launched(
                    *old(self),
                    App { new_fp_repo_input: old(self).new_fp_repo_input, ..*final(self) },
                    r,
                    Scope::Flatpak,
                    "add flatpak remote "@ + old(self).new_fp_repo_input@,
                    with_pw(Backend::Flatpak.add_repo_spec(old(self).new_fp_repo_input@, old(self).fp_system),
                        old(self).fp_system && old(self).pw_input@.len() > 0, old(self).pw_input@),
                ),
    {
        let v = chars_of(self.new_fp_repo_input.as_str());
        let t = trim_chars(v.as_slice());
        if t.len() == 0 {
            return None;
        }
        let repo = self.new_fp_repo_input.clone();
        let l = label("add flatpak remote ", repo.as_str());
        let cmd = Backend::Flatpak.add_repo_cmd(repo.as_str(), self.fp_system);
        let cmd = self.attach_password(cmd);
        let r = self.spawn_action(Scope::Flatpak, l, cmd);
        self.new_fp_repo_input = String::new();
        r
    }

    /// "+ Add Flathub".
    pub fn add_flathub(&mut self) -> (r: Option<ActionJob>)
        ensures
            launched(*old(self), *final(self), r, Scope::Flatpak, "add flatpak remote flathub"@,
                with_pw(Backend::Flatpak.add_repo_spec(flathub_remote(), old(self).fp_system),
                    old(self).fp_system && old(self).pw_input@.len() > 0, old(self).pw_input@)),
    {
        let cmd = Backend::Flatpak.add_repo_cmd("flathub https://flathub.org/repo/flathub.flatpakrepo", self.fp_system);
        let cmd = self.attach_password(cmd);
        self.spawn_action(Scope::Flatpak, "add flatpak remote flathub".to_owned(), cmd)
    }

    /// "Install Selected" or "Remove Selected": empties the selection and
    /// acts on each name that was ticked, as a single click on it would.
    pub fn act_on_selected(&mut self, kind: SelectedAction) -> (r: Vec<ActionJob>)
        ensures
            acted_on_selection(kind, *old(self), *final(self), r@),
    {
        let names = self.take_selected();
        let ghost a0 = *self;
        let ghost sv = crate::backend::strings_view(names@);
        let ghost mut trace: Seq<App> = seq![*self];
        let ghost mut rs: Seq<Option<ActionJob>> = Seq::empty();
        let mut jobs: Vec<ActionJob> = Vec::new();
        let mut i: usize = 0;
        assert(jobs@ =~= jobs_of(rs));
        assert(acted_in_turn(kind, a0, *self, jobs@, sv.take(0), trace, rs));
        while i < names.len()
            invariant
                i <= names@.len(),
                sv == crate::backend::strings_view(names@),
                self.selected == a0.selected,
                acted_in_turn(kind, a0, *self, jobs@, sv.take(i as int), trace, rs),
            decreases names@.len() - i,
        {
            let ghost before = *self;
            let ghost trace0 = trace;
            let ghost rs0 = rs;
            let ghost jobs0 = jobs@;
            assert(names@[i as int]@ == sv[i as int]);
            let r = match kind {
                SelectedAction::InstallNative => self.install_native(names[i].as_str()),
                SelectedAction::RemoveNative => self.remove_native(names[i].as_str()),
                SelectedAction::InstallFlatpak => self.install_flatpak(names[i].as_str()),
            };
            proof {
                trace = trace.push(*self);
                rs = rs.push(r);
            }
            match r {
                Some(j) => {
                    jobs.push(j);
                },
                None => {},
            }
            proof {
                assert(rs.drop_last() =~= rs0);
                assert(jobs@ =~= jobs_of(rs));
                let n1 = sv.take(i + 1);
                assert forall|k: int| 0 <= k < n1.len() implies launched(
                    trace[k],
                    trace[k + 1],
                    #[trigger] rs[k],
                    action_for(kind, trace[k], n1[k]).0,
                    action_for(kind, trace[k], n1[k]).1,
                    action_for(kind, trace[k], n1[k]).2,
                ) by {
                    if k < i {
                        assert(rs[k] == rs0[k]);
                        assert(trace[k] == trace0[k]);
                        assert(trace[k + 1] == trace0[k + 1]);
                        assert(n1[k] == sv.take(i as int)[k]);
                    } else {
                        assert(k == i);
                        assert(trace[k] == before);
                        assert(rs[k] == r);
                    }
                }
            }
            i += 1;
        }
        proof {
            assert(sv.take(sv.len() as int) =~= sv);
            assert(acted_in_turn(kind, App { selected: self.selected, ..*old(self) }, *self, jobs@, sv, trace, rs));
        }
        jobs
    }

    /// "Remove" on a Flatpak remote.
    pub fn remove_flatpak_remote(&mut self, id: &str) -> (r: Option<ActionJob>)
        ensures
            launched(*old(self), *final(self), r, Scope::Flatpak, "remove flatpak remote "@ + id@,
                with_pw(Backend::Flatpak.remove_repo_spec(id@, old(self).fp_system),
                    old(self).fp_system && old(self).pw_input@.len() > 0, old(self).pw_input@)),
    {
        let cmd = Backend::Flatpak.remove_repo_cmd(id, self.fp_system);
        let cmd = self.attach_password(cmd);
        self.spawn_action(Scope::Flatpak, label("remove flatpak remote ", id), cmd)
    }
}

} // verus!
