//! The backend chosen at run time: one of the distribution backends or
//! Flatpak, behaving exactly as the one it names.
use vstd::prelude::*;
use super::apk::Apk;
use super::apt::Apt;
use super::dnf::Dnf;
use super::flatpak::Flatpak;
use super::pacman::Pacman;
use super::yay::Yay;
use super::zypper::Zypper;
use super::{
    launch_spec, collect,
    CommandView, PackageInfo, PackageManager, PackageView, PmCommand, RepoInfo, RepoSource,
    RepoSourceView, RepoView,
};

verus! {

/// A backend, chosen among the known ones.
#[derive(Clone, Copy, Debug, PartialEq, Eq, Structural)]
pub enum Backend {
    Apt,
    Dnf,
    Pacman,
    Yay,
    Zypper,
    Apk,
    Flatpak,
}

impl PackageManager for Backend {
    open spec fn name_spec(&self) -> Seq<char> {
        match self {
            Backend::Apt => Apt.name_spec(),
            Backend::Dnf => Dnf.name_spec(),
            Backend::Pacman => Pacman.name_spec(),
            Backend::Yay => Yay.name_spec(),
            Backend::Zypper => Zypper.name_spec(),
            Backend::Apk => Apk.name_spec(),
            Backend::Flatpak => Flatpak.name_spec(),
        }
    }

    open spec fn binary_spec(&self) -> Seq<char> {
        match self {
            Backend::Apt => Apt.binary_spec(),
            Backend::Dnf => Dnf.binary_spec(),
            Backend::Pacman => Pacman.binary_spec(),
            Backend::Yay => Yay.binary_spec(),
            Backend::Zypper => Zypper.binary_spec(),
            Backend::Apk => Apk.binary_spec(),
            Backend::Flatpak => Flatpak.binary_spec(),
        }
    }

    open spec fn search_spec(&self, query: Seq<char>, system: bool) -> CommandView {
        match self {
            Backend::Apt => Apt.search_spec(query, system),
            Backend::Dnf => Dnf.search_spec(query, system),
            Backend::Pacman => Pacman.search_spec(query, system),
            Backend::Yay => Yay.search_spec(query, system),
            Backend::Zypper => Zypper.search_spec(query, system),
            Backend::Apk => Apk.search_spec(query, system),
            Backend::Flatpak => Flatpak.search_spec(query, system),
        }
    }

    open spec fn probe_spec(&self, system: bool) -> Option<CommandView> {
        match self {
            Backend::Apt => Apt.probe_spec(system),
            Backend::Dnf => Dnf.probe_spec(system),
            Backend::Pacman => Pacman.probe_spec(system),
            Backend::Yay => Yay.probe_spec(system),
            Backend::Zypper => Zypper.probe_spec(system),
            Backend::Apk => Apk.probe_spec(system),
            Backend::Flatpak => Flatpak.probe_spec(system),
        }
    }

    open spec fn search_results(&self, out: Seq<char>, probe: Seq<char>) -> Seq<PackageView> {
        match self {
            Backend::Apt => Apt.search_results(out, probe),
            Backend::Dnf => Dnf.search_results(out, probe),
            Backend::Pacman => Pacman.search_results(out, probe),
            Backend::Yay => Yay.search_results(out, probe),
            Backend::Zypper => Zypper.search_results(out, probe),
            Backend::Apk => Apk.search_results(out, probe),
            Backend::Flatpak => Flatpak.search_results(out, probe),
        }
    }

    open spec fn installed_spec(&self, system: bool) -> CommandView {
        match self {
            Backend::Apt => Apt.installed_spec(system),
            Backend::Dnf => Dnf.installed_spec(system),
            Backend::Pacman => Pacman.installed_spec(system),
            Backend::Yay => Yay.installed_spec(system),
            Backend::Zypper => Zypper.installed_spec(system),
            Backend::Apk => Apk.installed_spec(system),
            Backend::Flatpak => Flatpak.installed_spec(system),
        }
    }

    open spec fn installed_results(&self, out: Seq<char>) -> Seq<PackageView> {
        match self {
            Backend::Apt => Apt.installed_results(out),
            Backend::Dnf => Dnf.installed_results(out),
            Backend::Pacman => Pacman.installed_results(out),
            Backend::Yay => Yay.installed_results(out),
            Backend::Zypper => Zypper.installed_results(out),
            Backend::Apk => Apk.installed_results(out),
            Backend::Flatpak => Flatpak.installed_results(out),
        }
    }

    open spec fn install_spec(&self, pkg: Seq<char>, system: bool) -> CommandView {
        match self {
            Backend::Apt => Apt.install_spec(pkg, system),
            Backend::Dnf => Dnf.install_spec(pkg, system),
            Backend::Pacman => Pacman.install_spec(pkg, system),
            Backend::Yay => Yay.install_spec(pkg, system),
            Backend::Zypper => Zypper.install_spec(pkg, system),
            Backend::Apk => Apk.install_spec(pkg, system),
            Backend::Flatpak => Flatpak.install_spec(pkg, system),
        }
    }

    open spec fn remove_spec(&self, pkg: Seq<char>, system: bool) -> CommandView {
        match self {
            Backend::Apt => Apt.remove_spec(pkg, system),
            Backend::Dnf => Dnf.remove_spec(pkg, system),
            Backend::Pacman => Pacman.remove_spec(pkg, system),
            Backend::Yay => Yay.remove_spec(pkg, system),
            Backend::Zypper => Zypper.remove_spec(pkg, system),
            Backend::Apk => Apk.remove_spec(pkg, system),
            Backend::Flatpak => Flatpak.remove_spec(pkg, system),
        }
    }

    open spec fn update_index_spec(&self, system: bool) -> CommandView {
        match self {
            Backend::Apt => Apt.update_index_spec(system),
            Backend::Dnf => Dnf.update_index_spec(system),
            Backend::Pacman => Pacman.update_index_spec(system),
            Backend::Yay => Yay.update_index_spec(system),
            Backend::Zypper => Zypper.update_index_spec(system),
            Backend::Apk => Apk.update_index_spec(system),
            Backend::Flatpak => Flatpak.update_index_spec(system),
        }
    }

    open spec fn upgrade_all_spec(&self, system: bool) -> CommandView {
        match self {
            Backend::Apt => Apt.upgrade_all_spec(system),
            Backend::Dnf => Dnf.upgrade_all_spec(system),
            Backend::Pacman => Pacman.upgrade_all_spec(system),
            Backend::Yay => Yay.upgrade_all_spec(system),
            Backend::Zypper => Zypper.upgrade_all_spec(system),
            Backend::Apk => Apk.upgrade_all_spec(system),
            Backend::Flatpak => Flatpak.upgrade_all_spec(system),
        }
    }

    open spec fn repo_source_spec(&self, system: bool) -> RepoSourceView {
        match self {
            Backend::Apt => Apt.repo_source_spec(system),
            Backend::Dnf => Dnf.repo_source_spec(system),
            Backend::Pacman => Pacman.repo_source_spec(system),
            Backend::Yay => Yay.repo_source_spec(system),
            Backend::Zypper => Zypper.repo_source_spec(system),
            Backend::Apk => Apk.repo_source_spec(system),
            Backend::Flatpak => Flatpak.repo_source_spec(system),
        }
    }

    open spec fn repo_results(&self, origin: Seq<char>, text: Seq<char>) -> Seq<RepoView> {
        match self {
            Backend::Apt => Apt.repo_results(origin, text),
            Backend::Dnf => Dnf.repo_results(origin, text),
            Backend::Pacman => Pacman.repo_results(origin, text),
            Backend::Yay => Yay.repo_results(origin, text),
            Backend::Zypper => Zypper.repo_results(origin, text),
            Backend::Apk => Apk.repo_results(origin, text),
            Backend::Flatpak => Flatpak.repo_results(origin, text),
        }
    }

    open spec fn add_repo_spec(&self, repo: Seq<char>, system: bool) -> CommandView {
        match self {
            Backend::Apt => Apt.add_repo_spec(repo, system),
            Backend::Dnf => Dnf.add_repo_spec(repo, system),
            Backend::Pacman => Pacman.add_repo_spec(repo, system),
            Backend::Yay => Yay.add_repo_spec(repo, system),
            Backend::Zypper => Zypper.add_repo_spec(repo, system),
            Backend::Apk => Apk.add_repo_spec(repo, system),
            Backend::Flatpak => Flatpak.add_repo_spec(repo, system),
        }
    }

    open spec fn remove_repo_spec(&self, repo_id: Seq<char>, system: bool) -> CommandView {
        match self {
            Backend::Apt => Apt.remove_repo_spec(repo_id, system),
            Backend::Dnf => Dnf.remove_repo_spec(repo_id, system),
            Backend::Pacman => Pacman.remove_repo_spec(repo_id, system),
            Backend::Yay => Yay.remove_repo_spec(repo_id, system),
            Backend::Zypper => Zypper.remove_repo_spec(repo_id, system),
            Backend::Apk => Apk.remove_repo_spec(repo_id, system),
            Backend::Flatpak => Flatpak.remove_repo_spec(repo_id, system),
        }
    }

    fn display_name(&self) -> (r: &'static str) {
        match self {
            Backend::Apt => Apt.display_name(),
            Backend::Dnf => Dnf.display_name(),
            Backend::Pacman => Pacman.display_name(),
            Backend::Yay => Yay.display_name(),
            Backend::Zypper => Zypper.display_name(),
            Backend::Apk => Apk.display_name(),
            Backend::Flatpak => Flatpak.display_name(),
        }
    }

    fn binary(&self) -> (r: &'static str) {
        match self {
            Backend::Apt => Apt.binary(),
            Backend::Dnf => Dnf.binary(),
            Backend::Pacman => Pacman.binary(),
            Backend::Yay => Yay.binary(),
            Backend::Zypper => Zypper.binary(),
            Backend::Apk => Apk.binary(),
            Backend::Flatpak => Flatpak.binary(),
        }
    }

    fn search_cmd(&self, query: &str, system: bool) -> (c: PmCommand) {
        match self {
            Backend::Apt => Apt.search_cmd(query, system),
            Backend::Dnf => Dnf.search_cmd(query, system),
            Backend::Pacman => Pacman.search_cmd(query, system),
            Backend::Yay => Yay.search_cmd(query, system),
            Backend::Zypper => Zypper.search_cmd(query, system),
            Backend::Apk => Apk.search_cmd(query, system),
            Backend::Flatpak => Flatpak.search_cmd(query, system),
        }
    }

    fn probe_cmd(&self, system: bool) -> (c: Option<PmCommand>) {
        match self {
            Backend::Apt => Apt.probe_cmd(system),
            Backend::Dnf => Dnf.probe_cmd(system),
            Backend::Pacman => Pacman.probe_cmd(system),
            Backend::Yay => Yay.probe_cmd(system),
            Backend::Zypper => Zypper.probe_cmd(system),
            Backend::Apk => Apk.probe_cmd(system),
            Backend::Flatpak => Flatpak.probe_cmd(system),
        }
    }

    fn parse_search(&self, out: &str, probe: &str) -> (r: Vec<PackageInfo>) {
        match self {
            Backend::Apt => Apt.parse_search(out, probe),
            Backend::Dnf => Dnf.parse_search(out, probe),
            Backend::Pacman => Pacman.parse_search(out, probe),
            Backend::Yay => Yay.parse_search(out, probe),
            Backend::Zypper => Zypper.parse_search(out, probe),
            Backend::Apk => Apk.parse_search(out, probe),
            Backend::Flatpak => Flatpak.parse_search(out, probe),
        }
    }

    fn list_installed_cmd(&self, system: bool) -> (c: PmCommand) {
        match self {
            Backend::Apt => Apt.list_installed_cmd(system),
            Backend::Dnf => Dnf.list_installed_cmd(system),
            Backend::Pacman => Pacman.list_installed_cmd(system),
            Backend::Yay => Yay.list_installed_cmd(system),
            Backend::Zypper => Zypper.list_installed_cmd(system),
            Backend::Apk => Apk.list_installed_cmd(system),
            Backend::Flatpak => Flatpak.list_installed_cmd(system),
        }
    }

    fn parse_installed(&self, out: &str) -> (r: Vec<PackageInfo>) {
        match self {
            Backend::Apt => Apt.parse_installed(out),
            Backend::Dnf => Dnf.parse_installed(out),
            Backend::Pacman => Pacman.parse_installed(out),
            Backend::Yay => Yay.parse_installed(out),
            Backend::Zypper => Zypper.parse_installed(out),
            Backend::Apk => Apk.parse_installed(out),
            Backend::Flatpak => Flatpak.parse_installed(out),
        }
    }

    fn install_cmd(&self, pkg: &str, system: bool) -> (c: PmCommand) {
        match self {
            Backend::Apt => Apt.install_cmd(pkg, system),
            Backend::Dnf => Dnf.install_cmd(pkg, system),
            Backend::Pacman => Pacman.install_cmd(pkg, system),
            Backend::Yay => Yay.install_cmd(pkg, system),
            Backend::Zypper => Zypper.install_cmd(pkg, system),
            Backend::Apk => Apk.install_cmd(pkg, system),
            Backend::Flatpak => Flatpak.install_cmd(pkg, system),
        }
    }

    fn remove_cmd(&self, pkg: &str, system: bool) -> (c: PmCommand) {
        match self {
            Backend::Apt => Apt.remove_cmd(pkg, system),
            Backend::Dnf => Dnf.remove_cmd(pkg, system),
            Backend::Pacman => Pacman.remove_cmd(pkg, system),
            Backend::Yay => Yay.remove_cmd(pkg, system),
            Backend::Zypper => Zypper.remove_cmd(pkg, system),
            Backend::Apk => Apk.remove_cmd(pkg, system),
            Backend::Flatpak => Flatpak.remove_cmd(pkg, system),
        }
    }

    fn update_index_cmd(&self, system: bool) -> (c: PmCommand) {
        match self {
            Backend::Apt => Apt.update_index_cmd(system),
            Backend::Dnf => Dnf.update_index_cmd(system),
            Backend::Pacman => Pacman.update_index_cmd(system),
            Backend::Yay => Yay.update_index_cmd(system),
            Backend::Zypper => Zypper.update_index_cmd(system),
            Backend::Apk => Apk.update_index_cmd(system),
            Backend::Flatpak => Flatpak.update_index_cmd(system),
        }
    }

    fn upgrade_all_cmd(&self, system: bool) -> (c: PmCommand) {
        match self {
            Backend::Apt => Apt.upgrade_all_cmd(system),
            Backend::Dnf => Dnf.upgrade_all_cmd(system),
            Backend::Pacman => Pacman.upgrade_all_cmd(system),
            Backend::Yay => Yay.upgrade_all_cmd(system),
            Backend::Zypper => Zypper.upgrade_all_cmd(system),
            Backend::Apk => Apk.upgrade_all_cmd(system),
            Backend::Flatpak => Flatpak.upgrade_all_cmd(system),
        }
    }

    fn repo_source(&self, system: bool) -> (r: RepoSource) {
        match self {
            Backend::Apt => Apt.repo_source(system),
            Backend::Dnf => Dnf.repo_source(system),
            Backend::Pacman => Pacman.repo_source(system),
            Backend::Yay => Yay.repo_source(system),
            Backend::Zypper => Zypper.repo_source(system),
            Backend::Apk => Apk.repo_source(system),
            Backend::Flatpak => Flatpak.repo_source(system),
        }
    }

    fn parse_repos(&self, origin: &str, text: &str) -> (r: Vec<RepoInfo>) {
        match self {
            Backend::Apt => Apt.parse_repos(origin, text),
            Backend::Dnf => Dnf.parse_repos(origin, text),
            Backend::Pacman => Pacman.parse_repos(origin, text),
            Backend::Yay => Yay.parse_repos(origin, text),
            Backend::Zypper => Zypper.parse_repos(origin, text),
            Backend::Apk => Apk.parse_repos(origin, text),
            Backend::Flatpak => Flatpak.parse_repos(origin, text),
        }
    }

    fn add_repo_cmd(&self, repo: &str, system: bool) -> (c: PmCommand) {
        match self {
            Backend::Apt => Apt.add_repo_cmd(repo, system),
            Backend::Dnf => Dnf.add_repo_cmd(repo, system),
            Backend::Pacman => Pacman.add_repo_cmd(repo, system),
            Backend::Yay => Yay.add_repo_cmd(repo, system),
            Backend::Zypper => Zypper.add_repo_cmd(repo, system),
            Backend::Apk => Apk.add_repo_cmd(repo, system),
            Backend::Flatpak => Flatpak.add_repo_cmd(repo, system),
        }
    }

    fn remove_repo_cmd(&self, repo_id: &str, system: bool) -> (c: PmCommand) {
        match self {
            Backend::Apt => Apt.remove_repo_cmd(repo_id, system),
            Backend::Dnf => Dnf.remove_repo_cmd(repo_id, system),
            Backend::Pacman => Pacman.remove_repo_cmd(repo_id, system),
            Backend::Yay => Yay.remove_repo_cmd(repo_id, system),
            Backend::Zypper => Zypper.remove_repo_cmd(repo_id, system),
            Backend::Apk => Apk.remove_repo_cmd(repo_id, system),
            Backend::Flatpak => Flatpak.remove_repo_cmd(repo_id, system),
        }
    }

}


/// The distribution backends whose changes run as root: all but `yay`
/// (whose AUR builds must not run as root) and Flatpak.
pub open spec fn elevated(b: Backend) -> bool {
    b != Backend::Yay && b != Backend::Flatpak
}

/// Privileged operations run through pkexec, falling back to sudo: on every
/// distribution backend but `yay`, installing, removing, refreshing the
/// index, upgrading, and adding or removing a repository are commands that
/// need root, and launching one without a password runs `pkexec` (or `sudo`
/// when pkexec is missing) on the backend's own program and arguments.
pub proof fn lemma_changes_are_elevated(b: Backend, x: Seq<char>, system: bool, pkexec_available: bool)
    requires
        elevated(b),
    ensures
        forall|c: CommandView|
            c == b.install_spec(x, system) || c == b.remove_spec(x, system) || c == b.update_index_spec(system)
                || c == b.upgrade_all_spec(system) || c == b.add_repo_spec(x, system) || c == b.remove_repo_spec(x, system)
                ==> {
                &&& c.needs_root
                &&& c.password is None
                &&& launch_spec(c, pkexec_available) == (
                    if pkexec_available { "pkexec"@ } else { "sudo"@ },
                    seq![c.program] + c.args,
                    None::<Seq<char>>,
                )
            },
{
}

/// Yay is never elevated by the front end (yay calls sudo itself), and its
/// repositories are pacman's: listed from and changed in `pacman.conf`
/// exactly as the Pacman backend does.
pub proof fn lemma_yay_defers_to_pacman(x: Seq<char>, origin: Seq<char>, text: Seq<char>, system: bool)
    ensures
        !Backend::Yay.install_spec(x, system).needs_root,
        !Backend::Yay.remove_spec(x, system).needs_root,
        !Backend::Yay.update_index_spec(system).needs_root,
        !Backend::Yay.upgrade_all_spec(system).needs_root,
        Backend::Yay.repo_source_spec(system) == Backend::Pacman.repo_source_spec(system),
        Backend::Yay.repo_results(origin, text) == Backend::Pacman.repo_results(origin, text),
        Backend::Yay.add_repo_spec(x, system) == Backend::Pacman.add_repo_spec(x, system),
        Backend::Yay.remove_repo_spec(x, system) == Backend::Pacman.remove_repo_spec(x, system),
        Backend::Yay.installed_spec(system) == Backend::Pacman.installed_spec(system),
        Backend::Yay.installed_results(text) == Backend::Pacman.installed_results(text),
{
}

/// Flatpak operations default to `--user` scope and need no elevation: in
/// user scope every Flatpak change runs `flatpak` itself, unwrapped, with
/// `--user` as the argument after the subcommand.
pub proof fn lemma_flatpak_user_scope(x: Seq<char>, pkexec_available: bool)
    ensures
        forall|c: CommandView|
            c == Backend::Flatpak.install_spec(x, false) || c == Backend::Flatpak.remove_spec(x, false)
                || c == Backend::Flatpak.update_index_spec(false) || c == Backend::Flatpak.upgrade_all_spec(false)
                || c == Backend::Flatpak.add_repo_spec(x, false) || c == Backend::Flatpak.remove_repo_spec(x, false)
                ==> {
                &&& !c.needs_root
                &&& c.args.len() >= 2 && c.args[1] == "--user"@
                &&& launch_spec(c, pkexec_available) == ("flatpak"@, c.args, None::<Seq<char>>)
            },
{
}

/// Reading is never elevated: the commands a backend searches, probes for
/// installed packages, lists installed packages and lists repositories with
/// are read-only, and each is run as it is.
pub proof fn lemma_reads_are_unprivileged(b: Backend, query: Seq<char>, system: bool, pkexec_available: bool)
    ensures
        forall|c: CommandView|
            c == b.search_spec(query, system) || b.probe_spec(system) == Some(c) || c == b.installed_spec(system)
                || b.repo_source_spec(system) == RepoSourceView::Command(c)
                ==> {
                &&& !c.needs_root
                &&& c.password is None
                &&& launch_spec(c, pkexec_available) == (c.program, c.args, None::<Seq<char>>)
            },
{
}

/// The flag with which a backend's tool acts without asking for
/// confirmation, for the tools that would otherwise ask (`apk` does not).
pub open spec fn assume_yes_flag(b: Backend) -> Option<Seq<char>> {
    match b {
        Backend::Apt | Backend::Dnf | Backend::Flatpak => Some("-y"@),
        Backend::Pacman | Backend::Yay => Some("--noconfirm"@),
        Backend::Zypper => Some("--non-interactive"@),
        Backend::Apk => None,
    }
}

/// Package changes act on the package asked for and run unattended:
/// installing and removing `pkg` name it as their last argument and are
/// different commands; upgrading everything is a different command from
/// refreshing the package index; and where the tool would ask for
/// confirmation on a standard input nobody answers, installing, removing
/// and upgrading all carry its "yes" flag.
pub proof fn lemma_package_changes(b: Backend, pkg: Seq<char>, system: bool)
    ensures
        b.install_spec(pkg, system).args.len() > 0,
        b.install_spec(pkg, system).args.last() == pkg,
        b.remove_spec(pkg, system).args.len() > 0,
        b.remove_spec(pkg, system).args.last() == pkg,
        b.install_spec(pkg, system) != b.remove_spec(pkg, system),
        b.upgrade_all_spec(system) != b.update_index_spec(system),
        assume_yes_flag(b) matches Some(f) ==> {
            &&& b.install_spec(pkg, system).args.contains(f)
            &&& b.remove_spec(pkg, system).args.contains(f)
            &&& b.upgrade_all_spec(system).args.contains(f)
        },
{
    reveal_strlit("install");
    reveal_strlit("remove");
    reveal_strlit("update");
    reveal_strlit("upgrade");
    reveal_strlit("makecache");
    reveal_strlit("refresh");
    reveal_strlit("uninstall");
    reveal_strlit("-S");
    reveal_strlit("-R");
    reveal_strlit("add");
    reveal_strlit("del");
    let i = b.install_spec(pkg, system).args;
    let r = b.remove_spec(pkg, system).args;
    let u = b.upgrade_all_spec(system).args;
    let x = b.update_index_spec(system).args;
    match b {
        Backend::Apt | Backend::Dnf => {
            assert("install"@.len() == 7 && "remove"@.len() == 6);
            assert("upgrade"@.len() == 7 && "update"@.len() == 6 && "makecache"@.len() == 9);
            assert(i[0] != r[0]);
            assert(u[0] != x[0]);
            assert(i[1] == "-y"@ && r[1] == "-y"@ && u[1] == "-y"@);
        },
        Backend::Pacman | Backend::Yay => {
            assert(i[0][1] != r[0][1]);
            assert(i[0] != r[0]);
            assert(u.len() != x.len());
            assert(i[1] == "--noconfirm"@ && r[1] == "--noconfirm"@ && u[1] == "--noconfirm"@);
        },
        Backend::Zypper => {
            assert("install"@.len() == 7 && "remove"@.len() == 6);
            assert("refresh"@.len() == 7 && "update"@.len() == 6);
            assert(i[1] != r[1]);
            assert(u[1] != x[1]);
            assert(i[0] == "--non-interactive"@ && r[0] == "--non-interactive"@ && u[0] == "--non-interactive"@);
        },
        Backend::Apk => {
            assert(i[0][0] != r[0][0]);
            assert(i[0] != r[0]);
            assert(u[0] != x[0]);
        },
        Backend::Flatpak => {
            assert("install"@.len() == 7 && "uninstall"@.len() == 9);
            assert(i[0] != r[0]);
            assert(u.len() != x.len());
            assert(i[2] == "-y"@ && r[2] == "-y"@ && u[2] == "-y"@);
        },
    }
}

/// Adding a repository with DNF hands the repository to `--add-repo`.
pub proof fn lemma_dnf_add_repo(repo: Seq<char>, system: bool)
    ensures
        exists|k: int| 0 <= k < Backend::Dnf.add_repo_spec(repo, system).args.len() - 1
            && #[trigger] Backend::Dnf.add_repo_spec(repo, system).args[k] == "--add-repo"@
            && Backend::Dnf.add_repo_spec(repo, system).args[k + 1] == repo,
        Backend::Dnf.add_repo_spec(repo, system).needs_root,
{
    assert(Backend::Dnf.add_repo_spec(repo, system).args[1] == "--add-repo"@);
}

/// Whatever `f` yields satisfies `p`, so every element `collect` gathers
/// does.
pub proof fn lemma_collect_all<A>(ls: Seq<Seq<char>>, f: spec_fn(int, Seq<char>) -> Option<A>, p: spec_fn(A) -> bool)
    requires
        forall|i: int, l: Seq<char>| #[trigger] f(i, l) matches Some(x) ==> p(x),
    ensures
        forall|k: int| 0 <= k < collect(ls, f).len() ==> p(#[trigger] collect(ls, f)[k]),
    decreases ls.len(),
{
    if ls.len() > 0 {
        lemma_collect_all(ls.drop_last(), f, p);
        let rest = collect(ls.drop_last(), f);
        match f(ls.len() - 1, ls.last()) {
            Some(x) => {
                assert forall|k: int| 0 <= k < collect(ls, f).len() implies p(#[trigger] collect(ls, f)[k]) by {
                    if k < rest.len() {
                        assert(collect(ls, f)[k] == rest[k]);
                    }
                }
            },
            None => {},
        }
    }
}

/// Every package a backend lists as installed is marked installed.
pub proof fn lemma_installed_are_marked(b: Backend, out: Seq<char>)
    ensures
        forall|k: int| 0 <= k < b.installed_results(out).len() ==> (#[trigger] b.installed_results(out)[k]).installed,
{
    let p = |v: PackageView| v.installed;
    match b {
        Backend::Apt => lemma_collect_all(crate::text::lines(out), super::apt::installed_fn(), p),
        Backend::Dnf => lemma_collect_all(crate::text::lines(out), super::dnf::installed_fn(), p),
        Backend::Pacman | Backend::Yay => lemma_collect_all(crate::text::lines(out), super::pacman::installed_fn(), p),
        Backend::Zypper => lemma_collect_all(crate::text::lines(out), super::zypper::installed_fn(), p),
        Backend::Apk => lemma_collect_all(crate::text::lines(out), super::apk::listing_fn(true), p),
        Backend::Flatpak => lemma_collect_all(crate::text::lines(out), super::flatpak::installed_fn(), p),
    }
}

} // verus!
