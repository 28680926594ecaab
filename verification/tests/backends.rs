use universal_pm::backend::any::Backend;
use universal_pm::backend::apk::Apk;
use universal_pm::backend::apt::Apt;
use universal_pm::backend::dnf::Dnf;
use universal_pm::backend::flatpak::Flatpak;
use universal_pm::backend::pacman::Pacman;
use universal_pm::backend::yay::Yay;
use universal_pm::backend::zypper::Zypper;
use universal_pm::backend::{PackageInfo, PackageManager, PmCommand, RepoInfo, RepoSource};

fn pkg(name: &str, version: &str, description: &str, installed: bool) -> PackageInfo {
    PackageInfo {
        name: name.to_string(),
        version: version.to_string(),
        description: description.to_string(),
        installed,
    }
}

fn repo(id: &str, name: &str, url: &str, enabled: bool) -> RepoInfo {
    RepoInfo { id: id.to_string(), name: name.to_string(), url: url.to_string(), enabled }
}

fn args(c: &PmCommand) -> Vec<&str> {
    c.args.iter().map(|s| s.as_str()).collect()
}

#[test]
fn apt_search_marks_installed_from_dpkg_status() {
    let out = "vim - Vi IMproved - enhanced vi editor\nvim-tiny - Vi IMproved - compact\nbogus line\n";
    let probe = "vim\tinstall ok installed\nvim-tiny\tdeinstall ok config-files\n";
    let r = Apt.parse_search(out, probe);
    assert_eq!(
        r,
        vec![
            pkg("vim", "", "Vi IMproved - enhanced vi editor", true),
            pkg("vim-tiny", "", "Vi IMproved - compact", false),
        ]
    );
}

#[test]
fn apt_search_with_failed_probe_marks_nothing() {
    let r = Apt.parse_search("  curl  -  transfer tool \n", "");
    assert_eq!(r, vec![pkg("curl", "", "transfer tool", false)]);
}

#[test]
fn apt_installed_keeps_installed_status_only() {
    let out = "bash\t5.2-1\tinstall ok installed\tGNU Bourne Again SHell\nfoo\t1.0\tdeinstall ok config-files\tx\nbar\t2.0\tinstall ok installed\n";
    let r = Apt.parse_installed(out);
    assert_eq!(
        r,
        vec![pkg("bash", "5.2-1", "GNU Bourne Again SHell", true), pkg("bar", "2.0", "", true)]
    );
}

#[test]
fn apt_sources_entries_and_commented_entries() {
    let text = "deb http://deb.debian.org/debian bookworm main\n\n# deb-src http://deb.debian.org/debian bookworm main\n#comment\n";
    let r = Apt.parse_repos("/etc/apt/sources.list", text);
    assert_eq!(
        r,
        vec![
            repo("/etc/apt/sources.list:0", "sources.list", "deb http://deb.debian.org/debian bookworm main", true),
            repo("/etc/apt/sources.list:2", "sources.list", "deb-src http://deb.debian.org/debian bookworm main", false),
        ]
    );
}

#[test]
fn apt_source_files_keep_list_files() {
    let entries = vec![
        "/etc/apt/sources.list.d/google.list".to_string(),
        "/etc/apt/sources.list.d/.list".to_string(),
        "/etc/apt/sources.list.d/old.list.save".to_string(),
        "/etc/apt/sources.list.d/x.sources".to_string(),
        "/etc/apt/sources.list.d/a.b.list".to_string(),
    ];
    assert_eq!(
        Apt::source_files(&entries),
        vec![
            "/etc/apt/sources.list".to_string(),
            "/etc/apt/sources.list.d/google.list".to_string(),
            "/etc/apt/sources.list.d/a.b.list".to_string(),
        ]
    );
    assert!(matches!(Apt.repo_source(false), RepoSource::AptSourceLists));
}

#[test]
fn apt_commands() {
    let c = Apt.install_cmd("vim", false);
    assert_eq!(c.program, "apt-get");
    assert_eq!(args(&c), vec!["install", "-y", "vim"]);
    assert!(c.needs_root);
    assert!(c.password.is_none());
    assert_eq!(args(&Apt.remove_cmd("vim", false)), vec!["remove", "-y", "vim"]);
    assert_eq!(args(&Apt.update_index_cmd(false)), vec!["update"]);
    assert_eq!(args(&Apt.upgrade_all_cmd(false)), vec!["upgrade", "-y"]);
    let a = Apt.add_repo_cmd("ppa:user/name", false);
    assert_eq!(a.program, "add-apt-repository");
    assert_eq!(args(&a), vec!["-y", "ppa:user/name"]);
    assert_eq!(args(&Apt.remove_repo_cmd("ppa:user/name", false)), vec!["-y", "--remove", "ppa:user/name"]);
    let s = Apt.search_cmd("vim", false);
    assert_eq!(s.program, "apt-cache");
    assert_eq!(args(&s), vec!["search", "vim"]);
    assert!(!s.needs_root);
    assert_eq!(Apt.display_name(), "APT (Debian/Ubuntu)");
    assert_eq!(Apt.binary(), "apt");
}

#[test]
fn dnf_search_strips_arch_and_checks_prefix() {
    let out = "Last metadata expiration check\nvim-enhanced.x86_64 : A version of the VIM editor\nvim-minimal.x86_64 : A minimal version\n";
    let probe = "Installed Packages\nvim-minimal.x86_64   2:9.0-1.fc39   @anaconda\n";
    assert_eq!(
        Dnf.parse_search(out, probe),
        vec![
            pkg("vim-enhanced", "", "A version of the VIM editor", false),
            pkg("vim-minimal", "", "A minimal version", true),
        ]
    );
}

#[test]
fn dnf_installed_skips_header_and_short_lines() {
    let out = "Installed Packages\nbash.x86_64  5.2.26-1.fc39  @updates\nshort\n\n";
    assert_eq!(Dnf.parse_installed(out), vec![pkg("bash", "5.2.26-1.fc39", "@updates", true)]);
}

#[test]
fn dnf_repolist_status_column() {
    let text = "repo id                 repo name                       status\nfedora                  Fedora 39 - x86_64              enabled\nupdates-testing         Fedora 39 - x86_64 - Test Updates DISABLED\n";
    assert_eq!(
        Dnf.parse_repos("dnf", text),
        vec![
            repo("fedora", "Fedora 39 - x86_64", "fedora", true),
            repo("updates-testing", "Fedora 39 - x86_64 - Test Updates DISABLED", "updates-testing", false),
        ]
    );
}

#[test]
fn dnf_remove_repo_disables_it() {
    let c = Dnf.remove_repo_cmd("copr-foo", false);
    assert_eq!(c.program, "dnf");
    assert_eq!(args(&c), vec!["config-manager", "--set-disabled", "copr-foo"]);
    assert!(c.needs_root);
    assert_eq!(args(&Dnf.update_index_cmd(false)), vec!["makecache"]);
    match Dnf.repo_source(false) {
        RepoSource::Command(c) => assert_eq!(args(&c), vec!["-q", "repolist", "--all"]),
        _ => panic!("dnf lists repositories with a command"),
    }
}

#[test]
fn pacman_search_pairs_headers_with_descriptions() {
    let out = "core/vim 9.1.0-1 [installed]\n    Vi Improved, a highly configurable editor\nextra/gvim 9.1.0-1\n    Vi Improved, GUI\n";
    let probe = "vim 9.1.0-1\nbash 5.2\n";
    assert_eq!(
        Pacman.parse_search(out, probe),
        vec![
            pkg("vim", "9.1.0-1", "Vi Improved, a highly configurable editor", true),
            pkg("gvim", "9.1.0-1", "Vi Improved, GUI", false),
        ]
    );
}

#[test]
fn pacman_search_skips_the_line_after_each_header() {
    let out = "extra/foo 1.0\nextra/bar 2.0\n    bar description\n";
    assert_eq!(Pacman.parse_search(out, ""), vec![pkg("foo", "1.0", "", false)]);
}

#[test]
fn pacman_installed_list() {
    assert_eq!(
        Pacman.parse_installed("bash 5.2.026-2\nlonely\n"),
        vec![pkg("bash", "5.2.026-2", "", true)]
    );
}

#[test]
fn pacman_conf_sections() {
    let conf = "[options]\nHoldPkg = pacman glibc\n\n[core]\nInclude = /etc/pacman.d/mirrorlist\n\n[custom]\nServer = https://example.com/$repo/$arch\n[multilib]\nServer = https://a/\nInclude = /b\n";
    assert_eq!(
        Pacman.parse_repos("/etc/pacman.conf", conf),
        vec![
            repo("core", "core", "(via /etc/pacman.d/mirrorlist)", true),
            repo("custom", "custom", "https://example.com/$repo/$arch", true),
            repo("multilib", "multilib", "https://a/", true),
        ]
    );
    assert!(Pacman.parse_repos("/etc/pacman.conf", "").is_empty());
}

#[test]
fn pacman_conf_values_without_spaces() {
    let conf = "[extra]\nInclude=/etc/pacman.d/mirrorlist\n[own]\nServer=https://own/\n";
    assert_eq!(
        Pacman.parse_repos("/etc/pacman.conf", conf),
        vec![
            repo("extra", "extra", "(via /etc/pacman.d/mirrorlist)", true),
            repo("own", "own", "https://own/", true),
        ]
    );
}

#[test]
fn pacman_repo_commands_quote_and_strip() {
    let c = Pacman.add_repo_cmd("[my'repo]", false);
    assert_eq!(c.program, "sh");
    assert_eq!(args(&c), vec!["-c", "printf '%s\\n' '[my'\\''repo]' >> /etc/pacman.conf"]);
    assert!(c.needs_root);
    let r = Pacman.remove_repo_cmd("custom", false);
    assert_eq!(
        args(&r),
        vec![
            "-c",
            "awk -v RS= -v ORS=\"\\n\\n\" '!/^\\[custom\\]/' /etc/pacman.conf > /tmp/pacman.conf.new && mv /tmp/pacman.conf.new /etc/pacman.conf"
        ]
    );
}

#[test]
fn yay_header_marks_installed_and_commands_run_unelevated() {
    let out = "aur/yay-bin 12.3.5-1 [installed: 12.3.1-1]\n    Yet another yogurt\naur/paru 2.0-1\n    Feature packed AUR helper\n";
    assert_eq!(
        Yay.parse_search(out, ""),
        vec![
            pkg("yay-bin", "12.3.5-1", "Yet another yogurt", true),
            pkg("paru", "2.0-1", "Feature packed AUR helper", false),
        ]
    );
    let c = Yay.install_cmd("paru", false);
    assert_eq!(c.program, "yay");
    assert_eq!(args(&c), vec!["-S", "--noconfirm", "paru"]);
    assert!(!c.needs_root);
    assert!(!Yay.upgrade_all_cmd(false).needs_root);
    assert_eq!(Yay.list_installed_cmd(false).program, "pacman");
    let a = Yay.add_repo_cmd("[x]", false);
    let b = Pacman.add_repo_cmd("[x]", false);
    assert_eq!(a.args, b.args);
    assert!(a.needs_root);
}

#[test]
fn zypper_search_table() {
    let out = "Loading repository data...\nReading installed packages...\n\nS  | Name | Summary | Type\n---+------+---------+--------\ni+ | vim  | Vi IMproved | package\n   | gvim | GUI vim | package\n";
    assert_eq!(
        Zypper.parse_search(out, ""),
        vec![pkg("vim", "", "Vi IMproved", true), pkg("gvim", "", "GUI vim", false)]
    );
    assert!(Zypper.probe_cmd(false).is_none());
}

#[test]
fn zypper_rpm_listing_and_repos() {
    assert_eq!(
        Zypper.parse_installed("bash\t5.2.15\tThe GNU Bourne Again shell\nfoo\n"),
        vec![pkg("bash", "5.2.15", "The GNU Bourne Again shell", true), pkg("foo", "", "", true)]
    );
    let lr = "#  | Alias | Name | Enabled | GPG Check | Refresh | Priority | Type | URI\n---+-------+------\n 1 | repo-oss | Main Repository | Yes | (r ) Yes | Yes | 99 | rpm-md | http://download.opensuse.org/tumbleweed/repo/oss/\n 2 | repo-debug | Debug | No | ---- | ---- | 99 | NONE | http://x/\n";
    assert_eq!(
        Zypper.parse_repos("zypper", lr),
        vec![
            repo("repo-oss", "Main Repository", "http://download.opensuse.org/tumbleweed/repo/oss/", true),
            repo("repo-debug", "Debug", "http://x/", false),
        ]
    );
    assert_eq!(args(&Zypper.add_repo_cmd("http://r/", false)), vec!["ar", "-f", "http://r/"]);
    assert_eq!(args(&Zypper.remove_repo_cmd("repo-debug", false)), vec!["rr", "repo-debug"]);
}

#[test]
fn apk_listing_strips_versions() {
    let out = "busybox-1.36.1-r2 - Size optimized toolbox\nmusl-utils-1.2.4-r2 - the musl c library\nweird\n\n";
    assert_eq!(
        universal_pm::backend::apk::parse_verbose_listing(out, true),
        vec![
            pkg("busybox", "", "Size optimized toolbox", true),
            pkg("musl-utils", "", "the musl c library", true),
            pkg("weird", "", "", true),
        ]
    );
}

#[test]
fn apk_search_marks_installed_names() {
    let out = "busybox-1.36.1-r2 - Size optimized toolbox\nvim-9.0-r0 - editor\n";
    let probe = "busybox-1.36.1-r2 - x\n";
    assert_eq!(
        Apk.parse_search(out, probe),
        vec![pkg("busybox", "", "Size optimized toolbox", true), pkg("vim", "", "editor", false)]
    );
}

#[test]
fn apk_repositories_by_url() {
    let text = "http://dl-cdn.alpinelinux.org/alpine/v3.19/main\n#http://dl-cdn.alpinelinux.org/alpine/v3.19/community\n\n";
    assert_eq!(
        Apk.parse_repos("/etc/apk/repositories", text),
        vec![
            repo("http://dl-cdn.alpinelinux.org/alpine/v3.19/main", "http://dl-cdn.alpinelinux.org/alpine/v3.19/main", "http://dl-cdn.alpinelinux.org/alpine/v3.19/main", true),
            repo("http://dl-cdn.alpinelinux.org/alpine/v3.19/community", "http://dl-cdn.alpinelinux.org/alpine/v3.19/community", "http://dl-cdn.alpinelinux.org/alpine/v3.19/community", false),
        ]
    );
    let listed = Apk.parse_repos("/etc/apk/repositories", "  https://a/main  \n");
    let r = Apk.remove_repo_cmd(&listed[0].id, false);
    assert_eq!(
        args(&r),
        vec!["-c", "grep -vF 'https://a/main' /etc/apk/repositories > /tmp/apk.repos.new && mv /tmp/apk.repos.new /etc/apk/repositories"]
    );
    let a = Apk.add_repo_cmd("http://x", false);
    assert_eq!(args(&a), vec!["-c", "echo 'http://x' >> /etc/apk/repositories"]);
    let r = Apk.remove_repo_cmd("http://x", false);
    assert_eq!(
        args(&r),
        vec!["-c", "grep -vF 'http://x' /etc/apk/repositories > /tmp/apk.repos.new && mv /tmp/apk.repos.new /etc/apk/repositories"]
    );
}

#[test]
fn flatpak_search_columns() {
    let out = "Name\tDescription\tApplication ID\nGIMP\tGNU Image Manipulation Program\torg.gimp.GIMP\nShort\tonly two\nInkscape\tVector graphics\torg.inkscape.Inkscape\n";
    let probe = "org.gimp.GIMP\n";
    assert_eq!(
        Flatpak.parse_search(out, probe),
        vec![
            pkg("org.gimp.GIMP", "GIMP", "GNU Image Manipulation Program", true),
            pkg("org.inkscape.Inkscape", "Inkscape", "Vector graphics", false),
        ]
    );
}

#[test]
fn flatpak_installed_and_remotes() {
    assert_eq!(
        Flatpak.parse_installed("org.gimp.GIMP\tGIMP\t2.10.36\n\t\t\n"),
        vec![pkg("org.gimp.GIMP", "2.10.36", "GIMP", true)]
    );
    let remotes = "flathub\thttps://dl.flathub.org/repo/\tFlathub\t\nold\thttps://x/\tOld\ttrue\nbare\n";
    assert_eq!(
        Flatpak.parse_repos("flatpak", remotes),
        vec![
            repo("flathub", "Flathub", "https://dl.flathub.org/repo/", true),
            repo("old", "Old", "https://x/", false),
            repo("bare", "bare", "", true),
        ]
    );
}

#[test]
fn flatpak_commands_carry_scope() {
    let c = Flatpak.install_cmd("org.gimp.GIMP", false);
    assert_eq!(c.program, "flatpak");
    assert_eq!(args(&c), vec!["install", "--user", "-y", "--or-update", "org.gimp.GIMP"]);
    assert!(!c.needs_root);
    let s = Flatpak.remove_cmd("org.gimp.GIMP", true);
    assert_eq!(args(&s), vec!["uninstall", "--system", "-y", "org.gimp.GIMP"]);
    assert_eq!(args(&Flatpak.update_index_cmd(false)), vec!["update", "--user", "--appstream", "-y"]);
    assert_eq!(args(&Flatpak.upgrade_all_cmd(false)), vec!["update", "--user", "-y"]);
    assert_eq!(
        args(&Flatpak.add_repo_cmd("flathub https://flathub.org/repo/flathub.flatpakrepo", false)),
        vec!["remote-add", "--user", "--if-not-exists", "flathub", "https://flathub.org/repo/flathub.flatpakrepo"]
    );
    assert_eq!(
        args(&Flatpak.add_repo_cmd("justaurl", false)),
        vec!["remote-add", "--user", "--if-not-exists", "justaurl", "justaurl"]
    );
    assert_eq!(
        args(&Flatpak.add_repo_cmd("", false)),
        vec!["remote-add", "--user", "--if-not-exists", "remote", ""]
    );
    assert_eq!(args(&Flatpak.remove_repo_cmd("flathub", false)), vec!["remote-delete", "--user", "flathub"]);
}

#[test]
fn backend_dispatches_to_its_variant() {
    assert_eq!(Backend::Zypper.display_name(), "Zypper (openSUSE)");
    assert_eq!(Backend::Apk.binary(), "apk");
    assert_eq!(args(&Backend::Pacman.install_cmd("vim", false)), vec!["-S", "--noconfirm", "vim"]);
    assert_eq!(
        Backend::Dnf.parse_installed("bash.x86_64 5.2 @u\n"),
        vec![pkg("bash", "5.2", "@u", true)]
    );
}

#[test]
fn reading_commands_are_never_elevated() {
    let all = [
        Backend::Apt,
        Backend::Dnf,
        Backend::Pacman,
        Backend::Yay,
        Backend::Zypper,
        Backend::Apk,
        Backend::Flatpak,
    ];
    for b in all {
        for system in [false, true] {
            assert!(!b.search_cmd("vim", system).needs_root);
            assert!(!b.list_installed_cmd(system).needs_root);
            if let Some(p) = b.probe_cmd(system) {
                assert!(!p.needs_root);
            }
            if let RepoSource::Command(c) = b.repo_source(system) {
                assert!(!c.needs_root);
            }
        }
    }
}
