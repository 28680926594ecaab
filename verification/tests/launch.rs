use universal_pm::backend::{
    capture_outcome, launch_outcome, needs_password, plan_launch, shell_quote, PmCommand,
};
use universal_pm::detect::{candidate_binaries, detect_native_backend, flatpak_available, probe_paths};
use universal_pm::backend::any::Backend;

#[test]
fn root_commands_go_through_pkexec_or_sudo() {
    let cmd = PmCommand::new("apt-get", &["install", "-y", "vim"], true);
    let l = plan_launch(&cmd, true);
    assert_eq!(l.program, "pkexec");
    assert_eq!(l.args, vec!["apt-get", "install", "-y", "vim"]);
    assert!(l.stdin.is_none());
    let l = plan_launch(&cmd, false);
    assert_eq!(l.program, "sudo");
    assert_eq!(l.args, vec!["apt-get", "install", "-y", "vim"]);
}

#[test]
fn a_password_is_fed_to_sudo() {
    let cmd = PmCommand::new("flatpak", &["list", "--system"], true).with_password("pw".to_string());
    let l = plan_launch(&cmd, true);
    assert_eq!(l.program, "sudo");
    assert_eq!(l.args, vec!["-S", "flatpak", "list", "--system"]);
    assert_eq!(l.stdin.as_deref(), Some("pw\n"));
}

#[test]
fn unprivileged_commands_run_as_they_are() {
    let cmd = PmCommand::new("flatpak", &["update", "--user", "-y"], false);
    let l = plan_launch(&cmd, true);
    assert_eq!(l.program, "flatpak");
    assert_eq!(l.args, vec!["update", "--user", "-y"]);
    assert!(l.stdin.is_none());
}

#[test]
fn launch_outcomes() {
    assert_eq!(launch_outcome("pkexec", true, "out", "err", "exit status: 0"), Ok("outerr".to_string()));
    assert_eq!(
        launch_outcome("pkexec", false, "", "  \n", "exit status: 126"),
        Err("pkexec exited with status exit status: 126".to_string())
    );
    assert_eq!(launch_outcome("sudo", false, "E: ", "broken", "exit status: 1"), Err("E: broken".to_string()));
}

#[test]
fn capture_outcomes() {
    assert_eq!(capture_outcome(true, "data", "warn"), Ok("data".to_string()));
    assert_eq!(capture_outcome(false, "data", "err"), Ok("data".to_string()));
    assert_eq!(capture_outcome(false, "", "boom"), Err("boom".to_string()));
}

#[test]
fn password_requests_are_recognised() {
    assert!(needs_password("sudo: a terminal is required to read the password"));
    assert!(needs_password("Sorry, A PASSWORD IS REQUIRED"));
    assert!(!needs_password("permission denied"));
    assert!(!needs_password(""));
}

#[test]
fn shell_quote_escapes_quotes() {
    assert_eq!(shell_quote("it's"), "'it'\\''s'");
    assert_eq!(shell_quote(""), "''");
    assert_eq!(shell_quote("a b"), "'a b'");
}

#[test]
fn detection_order() {
    assert_eq!(candidate_binaries(), vec!["apt-get", "apt", "dnf", "yay", "pacman", "zypper", "apk"]);
    assert_eq!(detect_native_backend(&vec![false, false, false, true, true, false, false]), Backend::Yay);
    assert_eq!(detect_native_backend(&vec![false, false, false, false, true, false, false]), Backend::Pacman);
    assert_eq!(detect_native_backend(&vec![false, false, true]), Backend::Dnf);
    assert_eq!(detect_native_backend(&vec![false, true]), Backend::Apt);
    assert_eq!(detect_native_backend(&vec![false; 7]), Backend::Apt);
    assert_eq!(detect_native_backend(&vec![]), Backend::Apt);
    assert_eq!(detect_native_backend(&vec![false, false, false, false, false, true, true]), Backend::Zypper);
    assert_eq!(detect_native_backend(&vec![false, false, false, false, false, false, true]), Backend::Apk);
}

#[test]
fn search_path_probing() {
    assert_eq!(
        probe_paths("flatpak", Some("/usr/bin:/bin/::x")),
        vec!["/usr/bin/flatpak", "/bin/flatpak", "flatpak", "x/flatpak"]
    );
    assert_eq!(probe_paths("/usr/bin/apt", Some("/bin")), vec!["/usr/bin/apt"]);
    assert!(probe_paths("apt", None).is_empty());
}

#[test]
fn flatpak_is_available_when_found_anywhere_on_the_path() {
    assert!(flatpak_available(&vec![false, true, false]));
    assert!(flatpak_available(&vec![true]));
    assert!(!flatpak_available(&vec![false, false]));
    assert!(!flatpak_available(&vec![]));
}
