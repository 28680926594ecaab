use universal_pm::app::{
    action_outcome, action_started, installed_listing_command, installed_outcome, repos_outcome,
    search_outcome, App, Job, Msg, Scope, SelectedAction, Tab,
};
use universal_pm::backend::any::Backend;
use universal_pm::backend::{PackageInfo, PackageManager, PmCommand};

fn app(native: Backend) -> App {
    App::new(native, true)
}

#[test]
fn a_new_app_starts_on_search() {
    let a = app(Backend::Apt);
    assert_eq!(a.tab, Tab::Search);
    assert!(a.dark_mode);
    assert!(!a.busy);
    assert!(a.log.is_empty());
    assert_eq!(a.backend_for(Scope::Flatpak), Backend::Flatpak);
    assert!(a.flatpak_available);
}

#[test]
fn log_lines_end_with_newlines() {
    let mut a = app(Backend::Apt);
    a.append_log("a");
    a.append_log("b\n");
    assert_eq!(a.log, "a\nb\n");
    a.clear_log();
    assert_eq!(a.log, "");
}

#[test]
fn root_action_waits_for_password_then_runs_with_it() {
    let mut a = app(Backend::Apt);
    let r = a.install_native("vim");
    assert!(r.is_none());
    assert!(a.show_pw_prompt);
    assert!(!a.busy);
    let (scope, cmd, label) = a.pending_cmd.as_ref().unwrap();
    assert_eq!(*scope, Scope::Native);
    assert_eq!(label, "install vim");
    assert_eq!(cmd.program, "apt-get");
    a.pw_input = "secret".to_string();
    let job = a.submit_password().expect("submitted with a password");
    assert_eq!(job.label, "install vim");
    assert_eq!(job.cmd.password.as_deref(), Some("secret"));
    assert!(a.busy);
    assert!(a.pw_input.is_empty());
    assert!(!a.show_pw_prompt);
    assert!(a.pending_cmd.is_none());
}

#[test]
fn submitting_a_blank_password_prompts_again() {
    let mut a = app(Backend::Dnf);
    assert!(a.upgrade_all().is_none());
    assert!(a.submit_password().is_none());
    assert!(a.show_pw_prompt);
    assert!(a.pending_cmd.is_some());
    a.cancel_password();
    assert!(!a.show_pw_prompt);
    assert!(a.pending_cmd.is_none());
}

#[test]
fn unprivileged_action_runs_at_once_and_wipes_the_password_field() {
    let mut a = app(Backend::Yay);
    a.pw_input = "typed".to_string();
    let job = a.install_native("paru").expect("yay is not elevated");
    assert_eq!(job.label, "install paru");
    assert_eq!(job.cmd.program, "yay");
    assert!(a.busy);
    assert!(a.pw_input.is_empty());
}

#[test]
fn system_flatpak_actions_carry_the_typed_password() {
    let mut a = app(Backend::Apt);
    a.fp_system = true;
    a.pw_input = "pw".to_string();
    let job = a.install_flatpak("org.gimp.GIMP").unwrap();
    assert_eq!(job.scope, Scope::Flatpak);
    assert_eq!(job.label, "install flatpak org.gimp.GIMP");
    assert_eq!(job.cmd.password.as_deref(), Some("pw"));
    assert_eq!(job.cmd.args[1], "--system");
    let mut b = app(Backend::Apt);
    b.pw_input = "pw".to_string();
    let job = b.remove_flatpak("org.gimp.GIMP").unwrap();
    assert!(job.cmd.password.is_none());
    assert_eq!(job.cmd.args[1], "--user");
}

#[test]
fn blank_searches_do_nothing() {
    let mut a = app(Backend::Apt);
    a.search_query = "   ".to_string();
    assert!(a.search_native().is_none());
    assert!(!a.busy);
    a.search_query = "vim".to_string();
    match a.search_native() {
        Some(Job::Search { scope, query, system }) => {
            assert_eq!(scope, Scope::Native);
            assert_eq!(query, "vim");
            assert!(!system);
        },
        _ => panic!("expected a search job"),
    }
    assert!(a.busy);
}

#[test]
fn system_listing_without_password_prompts() {
    let mut a = app(Backend::Apt);
    assert!(a.list_flatpaks_system().is_none());
    let (_, cmd, label) = a.pending_cmd.as_ref().unwrap();
    assert_eq!(label, "list flatpaks (system)");
    assert_eq!(cmd.args, vec!["list", "--system", "--app", "--columns=application,name,version"]);
    assert!(cmd.needs_root);
    let mut b = app(Backend::Apt);
    assert!(b.refresh_remotes_system().is_none());
    assert_eq!(b.pending_cmd.as_ref().unwrap().2, "list flatpak remotes (system)");
    b.pw_input = "pw".to_string();
    match b.refresh_remotes_system() {
        Some(Job::ListRepos { scope, system, password }) => {
            assert_eq!(scope, Scope::Flatpak);
            assert!(system);
            assert_eq!(password.as_deref(), Some("pw"));
        },
        _ => panic!("expected a listing job"),
    }
}

#[test]
fn messages_update_the_state() {
    let mut a = app(Backend::Apt);
    a.busy = true;
    let p = PackageInfo { name: "vim".into(), version: "".into(), description: "".into(), installed: true };
    a.handle(Msg::SearchResults(Scope::Native, vec![p.clone()]), true);
    assert_eq!(a.search_results, vec![p.clone()]);
    a.handle(Msg::InstalledList(Scope::Flatpak, vec![p.clone()]), true);
    assert_eq!(a.fp_results, vec![p.clone()]);
    a.handle(Msg::Error("boom".into()), true);
    assert_eq!(a.log, "ERROR: boom\n");
    a.handle(Msg::RequirePassword(Scope::Native, PmCommand::new("x", &[], true), "l".into()), true);
    assert!(a.show_pw_prompt);
    assert!(a.log.ends_with("Authentication required: prompting for password...\n"));
    a.handle(Msg::Done, false);
    assert!(!a.busy);
    assert!(!a.flatpak_available);
}

#[test]
fn action_outcomes() {
    let cmd = Backend::Apt.install_cmd("vim", false);
    let ok = action_outcome(Scope::Native, "install vim".into(), cmd.clone(), Ok("output".into()));
    assert_eq!(ok.len(), 2);
    assert!(matches!(&ok[0], Msg::Log(s) if s == "output"));
    assert!(matches!(&ok[1], Msg::Log(s) if s == "-- install vim: done --\n"));
    let pw = action_outcome(Scope::Native, "install vim".into(), cmd.clone(), Err("sudo: a terminal is required".into()));
    assert!(matches!(&pw[0], Msg::RequirePassword(Scope::Native, c, l) if c.program == "apt-get" && l == "install vim"));
    let err = action_outcome(Scope::Native, "install vim".into(), cmd, Err("E: Unable".into()));
    assert!(matches!(&err[0], Msg::Error(s) if s == "install vim failed: E: Unable"));
    assert!(matches!(action_started("install vim"), Msg::Log(s) if s == "$ install vim\n"));
}

#[test]
fn listing_outcomes() {
    let m = installed_outcome(Scope::Flatpak, true, Err("a password is required".into()));
    assert!(matches!(&m, Msg::RequirePassword(Scope::Flatpak, c, l) if l == "list flatpaks (system)" && c.needs_root));
    let m = installed_outcome(Scope::Native, false, Err("a password is required".into()));
    assert!(matches!(&m, Msg::Error(e) if e == "a password is required"));
    let m = repos_outcome(Scope::Flatpak, false, Err("terminal is required".into()));
    assert!(matches!(&m, Msg::RequirePassword(_, c, l) if l == "list flatpak remotes (system)" && c.args[1] == "--user"));
    assert!(matches!(search_outcome(Scope::Native, Err("x".into())), Msg::Error(e) if e == "x"));
    let c = installed_listing_command(Scope::Flatpak, true, Some("pw".into())).unwrap();
    assert_eq!(c.password.as_deref(), Some("pw"));
    assert!(installed_listing_command(Scope::Native, true, Some("pw".into())).is_none());
}

#[test]
fn selection_holds_each_name_once() {
    let mut a = app(Backend::Apt);
    a.set_selected("a", true);
    a.set_selected("b", true);
    a.set_selected("a", true);
    assert!(a.selected.contains("a"));
    assert_eq!(a.selected.len(), 2);
    a.set_selected("b", false);
    assert!(!a.selected.contains("b"));
    let mut names = a.take_selected();
    names.sort();
    assert_eq!(names, vec!["a".to_string()]);
    assert_eq!(a.selected.len(), 0);
}

#[test]
fn repo_inputs() {
    let mut a = app(Backend::Zypper);
    a.new_repo_input = "  ".into();
    assert!(a.add_native_repo().is_none());
    assert!(!a.show_pw_prompt);
    a.new_repo_input = "http://r/".into();
    assert!(a.add_native_repo().is_none());
    assert_eq!(a.new_repo_input, "");
    assert_eq!(a.pending_cmd.as_ref().unwrap().2, "add repo http://r/");
    let mut f = app(Backend::Apt);
    let job = f.add_flathub().unwrap();
    assert_eq!(job.label, "add flatpak remote flathub");
    assert_eq!(job.cmd.args[3], "flathub");
}

#[test]
fn acting_on_the_selection_runs_each_name_once() {
    let mut a = app(Backend::Yay);
    a.set_selected("paru", true);
    a.set_selected("vim", true);
    let jobs = a.act_on_selected(SelectedAction::InstallNative);
    let mut labels: Vec<String> = jobs.iter().map(|j| j.label.clone()).collect();
    labels.sort();
    assert_eq!(labels, vec!["install paru".to_string(), "install vim".to_string()]);
    assert!(jobs.iter().all(|j| j.scope == Scope::Native && j.cmd.program == "yay"));
    assert_eq!(a.selected.len(), 0);
    assert!(a.busy);
    assert!(a.act_on_selected(SelectedAction::RemoveNative).is_empty());
}

#[test]
fn acting_on_the_selection_holds_privileged_commands_back() {
    let mut a = app(Backend::Apt);
    a.set_selected("vim", true);
    let jobs = a.act_on_selected(SelectedAction::RemoveNative);
    assert!(jobs.is_empty());
    assert!(a.show_pw_prompt);
    let (scope, cmd, label) = a.pending_cmd.as_ref().unwrap();
    assert_eq!(*scope, Scope::Native);
    assert_eq!(label, "remove vim");
    assert_eq!(cmd.args, vec!["remove", "-y", "vim"]);
    assert_eq!(a.selected.len(), 0);
}

#[test]
fn only_the_first_selected_flatpak_gets_the_typed_password() {
    let mut a = app(Backend::Apt);
    a.fp_system = true;
    a.pw_input = "pw".into();
    a.set_selected("org.a.A", true);
    a.set_selected("org.b.B", true);
    let jobs = a.act_on_selected(SelectedAction::InstallFlatpak);
    assert_eq!(jobs.len(), 2);
    assert_eq!(jobs[0].cmd.password, Some("pw".to_string()));
    assert_eq!(jobs[1].cmd.password, None);
    assert!(jobs.iter().all(|j| j.cmd.args[1] == "--system"));
    assert_eq!(a.pw_input, "");
}
