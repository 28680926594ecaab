//! Arch Linux with the AUR: `yay`, a pacman wrapper that also searches and
//! builds AUR packages. It speaks pacman's `-S`/`-R`/`-Ss`/`-Q`/`-Sy`/`-Syu`
//! flags, so this backend mostly swaps the binary name; the repositories are
//! still `pacman.conf` sections, handled exactly as `Pacman` handles them.
//!
//! AUR packages are built with `makepkg`, which refuses to run as root, so
//! yay's commands are never wrapped in pkexec/sudo: yay calls sudo itself
//! for the final pacman step. Run non-interactively, that needs passwordless
//! sudo for pacman, e.g. `yourusername ALL=(ALL) NOPASSWD: /usr/bin/pacman`
//! added with `visudo`.
use vstd::prelude::*;
use super::pacman::{conf_path, conf_repos, installed_results, parse_conf, parse_installed_output, parse_search_with, search_results_with, Pacman};
use super::{
    command, CommandView, PackageInfo, PackageManager, PackageView, PmCommand, RepoInfo,
    RepoSource, RepoSourceView, RepoView,
};

verus! {

pub struct Yay;

impl PackageManager for Yay {
    open spec fn name_spec(&self) -> Seq<char> {
        "Yay (Arch + AUR)"@
    }

    open spec fn binary_spec(&self) -> Seq<char> {
        "yay"@
    }

    open spec fn search_spec(&self, query: Seq<char>, system: bool) -> CommandView {
        command("yay"@, seq!["-Ss"@, query], false)
    }

    open spec fn probe_spec(&self, system: bool) -> Option<CommandView> {
        Some(command("pacman"@, seq!["-Q"@], false))
    }

    open spec fn search_results(&self, out: Seq<char>, probe: Seq<char>) -> Seq<PackageView> {
        search_results_with(out, probe, true)
    }

    open spec fn installed_spec(&self, system: bool) -> CommandView {
        Pacman.installed_spec(false)
    }

    open spec fn installed_results(&self, out: Seq<char>) -> Seq<PackageView> {
        installed_results(out)
    }

    open spec fn install_spec(&self, pkg: Seq<char>, system: bool) -> CommandView {
        command("yay"@, seq!["-S"@, "--noconfirm"@, pkg], false)
    }

    open spec fn remove_spec(&self, pkg: Seq<char>, system: bool) -> CommandView {
        command("yay"@, seq!["-R"@, "--noconfirm"@, pkg], false)
    }

    open spec fn update_index_spec(&self, system: bool) -> CommandView {
        command("yay"@, seq!["-Sy"@], false)
    }

    open spec fn upgrade_all_spec(&self, system: bool) -> CommandView {
        command("yay"@, seq!["-Syu"@, "--noconfirm"@], false)
    }

    open spec fn repo_source_spec(&self, system: bool) -> RepoSourceView {
        Pacman.repo_source_spec(false)
    }

    open spec fn repo_results(&self, origin: Seq<char>, text: Seq<char>) -> Seq<RepoView> {
        Pacman.repo_results(origin, text)
    }

    open spec fn add_repo_spec(&self, repo: Seq<char>, system: bool) -> CommandView {
        Pacman.add_repo_spec(repo, false)
    }

    open spec fn remove_repo_spec(&self, repo_id: Seq<char>, system: bool) -> CommandView {
        Pacman.remove_repo_spec(repo_id, false)
    }

    fn display_name(&self) -> (r: &'static str) {
        "Yay (Arch + AUR)"
    }

    fn binary(&self) -> (r: &'static str) {
        "yay"
    }

    fn search_cmd(&self, query: &str, system: bool) -> (c: PmCommand) {
        PmCommand::new("yay", &["-Ss", query], false)
    }

    fn probe_cmd(&self, system: bool) -> (c: Option<PmCommand>) {
        Some(PmCommand::new("pacman", &["-Q"], false))
    }

    fn parse_search(&self, out: &str, probe: &str) -> (r: Vec<PackageInfo>) {
        parse_search_with(out, probe, true)
    }

    fn list_installed_cmd(&self, system: bool) -> (c: PmCommand) {
        // AUR packages installed via yay still show up in plain `pacman -Q`.
        Pacman.list_installed_cmd(false)
    }

    fn parse_installed(&self, out: &str) -> (r: Vec<PackageInfo>) {
        Pacman.parse_installed(out)
    }

    fn install_cmd(&self, pkg: &str, system: bool) -> (c: PmCommand) {
        // Not elevated on purpose: see the module documentation.
        PmCommand::new("yay", &["-S", "--noconfirm", pkg], false)
    }

    fn remove_cmd(&self, pkg: &str, system: bool) -> (c: PmCommand) {
        PmCommand::new("yay", &["-R", "--noconfirm", pkg], false)
    }

    fn update_index_cmd(&self, system: bool) -> (c: PmCommand) {
        PmCommand::new("yay", &["-Sy"], false)
    }

    fn upgrade_all_cmd(&self, system: bool) -> (c: PmCommand) {
        PmCommand::new("yay", &["-Syu", "--noconfirm"], false)
    }

    fn repo_source(&self, system: bool) -> (r: RepoSource) {
        Pacman.repo_source(false)
    }

    fn parse_repos(&self, origin: &str, text: &str) -> (r: Vec<RepoInfo>) {
        Pacman.parse_repos(origin, text)
    }

    fn add_repo_cmd(&self, repo: &str, system: bool) -> (c: PmCommand) {
        Pacman.add_repo_cmd(repo, false)
    }

    fn remove_repo_cmd(&self, repo_id: &str, system: bool) -> (c: PmCommand) {
        Pacman.remove_repo_cmd(repo_id, false)
    }
}

} // verus!
