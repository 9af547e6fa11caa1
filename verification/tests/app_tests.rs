use atpspy::app::{scan_has_auth_failure, selected_package_names, Action, App, Key, ScanOutcome, Screen};

const OUTPUT: &str = "Listing... Done\n\
vim/jammy-updates 2:8.2.3995-1ubuntu2.13 amd64 [upgradable from: 2:8.2.3995-1ubuntu2.12]\n\
libc6/jammy-security 2.35-0ubuntu3.6 amd64 [upgradable from: 2.35-0ubuntu3.5]\n\
git/jammy-updates 1:2.34.1-1ubuntu1.11 amd64 [upgradable from: 1:2.34.1-1ubuntu1.10]\n";

fn typed(pw: &str) -> App {
    let mut app = App::new();
    for c in pw.chars() {
        assert_eq!(app.handle_key(Key::Char(c)), Action::Nothing);
    }
    app
}

fn on_list() -> App {
    let mut app = typed("pw");
    app.handle_key(Key::Enter);
    assert_eq!(app.scan_message("__DONE__"), ScanOutcome::Accepted);
    app.load_packages(OUTPUT);
    app
}

#[test]
fn starts_on_password_screen() {
    let app = App::new();
    assert_eq!(app.screen, Screen::Password);
    assert!(app.password.is_empty());
    assert!(app.packages.is_empty());
}

#[test]
fn typing_and_backspace() {
    let mut app = typed("secret");
    assert_eq!(app.password, "secret");
    app.handle_key(Key::Backspace);
    assert_eq!(app.password, "secre");
    let mut empty = App::new();
    empty.handle_key(Key::Backspace);
    assert_eq!(empty.password, "");
    // on the password screen every character is typed, even q
    app.handle_key(Key::Char('q'));
    assert_eq!(app.password, "secreq");
}

#[test]
fn enter_starts_the_scan() {
    let mut app = typed("pw");
    app.password_error = "old".to_string();
    let a = app.handle_key(Key::Enter);
    assert_eq!(a, Action::StartScan { password: "pw".to_string() });
    assert_eq!(app.screen, Screen::Scanning);
    assert_eq!(app.scan_logs, vec!["Running sudo at update....".to_string()]);
    assert_eq!(app.password_error, "");
    assert_eq!(app.spinner_tick, 0);
}

#[test]
fn escape_quits() {
    assert_eq!(App::new().handle_key(Key::Esc), Action::Quit);
    let mut app = on_list();
    assert_eq!(app.handle_key(Key::Char('q')), Action::Quit);
    assert_eq!(app.handle_key(Key::Esc), Action::Quit);
}

#[test]
fn scan_lines_are_logged() {
    let mut app = typed("pw");
    app.handle_key(Key::Enter);
    assert_eq!(app.scan_message("Hit:1 http://archive.ubuntu.com jammy InRelease"), ScanOutcome::Pending);
    assert_eq!(app.scan_logs.len(), 2);
    assert_eq!(app.scan_logs[1], "Hit:1 http://archive.ubuntu.com jammy InRelease");
    assert_eq!(app.handle_key(Key::Char('x')), Action::Nothing);
    assert_eq!(app.screen, Screen::Scanning);
}

#[test]
fn wrong_password_detected_at_end() {
    let mut app = typed("bad");
    app.handle_key(Key::Enter);
    app.scan_message("Sorry, try again.");
    assert_eq!(app.scan_message("__DONE__"), ScanOutcome::Rejected);
    assert_eq!(app.screen, Screen::Password);
    assert_eq!(app.password, "");
    assert_eq!(app.scan_logs.last().unwrap(), "❌ Wrong password!");
}

#[test]
fn error_marker_rejects() {
    let mut app = typed("bad");
    app.handle_key(Key::Enter);
    assert_eq!(app.scan_message("__ERROR__"), ScanOutcome::Rejected);
    assert_eq!(app.screen, Screen::Password);
    assert_eq!(app.password, "");
    assert_eq!(app.password_error, "❌ Wrong password! Try again.");
    assert_eq!(app.scan_logs.last().unwrap(), "❌ Authentication failed!");
}

#[test]
fn successful_scan_loads_packages() {
    let app = on_list();
    assert_eq!(app.screen, Screen::PackageList);
    assert_eq!(app.scan_logs.last().unwrap(), "Done! Loading packages...");
    assert_eq!(app.packages.len(), 3);
    assert_eq!(app.packages[1].name, "libc6");
}

#[test]
fn auth_failure_markers() {
    let logs = |l: &str| vec!["Reading package lists...".to_string(), l.to_string()];
    assert!(scan_has_auth_failure(&logs("sudo: 3 incorrect password attempts")));
    assert!(scan_has_auth_failure(&logs("user is not in the sudoers file.")));
    assert!(scan_has_auth_failure(&logs("pam: authentication failure")));
    assert!(scan_has_auth_failure(&logs("please try again")));
    assert!(!scan_has_auth_failure(&logs("All packages are up to date.")));
    assert!(!scan_has_auth_failure(&Vec::new()));
}

#[test]
fn navigation_stays_in_list() {
    let mut app = on_list();
    app.handle_key(Key::Up);
    assert_eq!(app.selected_idx, 0);
    app.handle_key(Key::Down);
    app.handle_key(Key::Char('j'));
    assert_eq!(app.selected_idx, 2);
    app.handle_key(Key::Down);
    assert_eq!(app.selected_idx, 2);
    app.handle_key(Key::Char('k'));
    assert_eq!(app.selected_idx, 1);
}

#[test]
fn navigation_on_empty_list() {
    let mut app = typed("pw");
    app.handle_key(Key::Enter);
    app.scan_message("__DONE__");
    app.load_packages("Listing... Done\n");
    app.handle_key(Key::Down);
    assert_eq!(app.selected_idx, 0);
    assert_eq!(app.handle_key(Key::Char(' ')), Action::Nothing);
    assert_eq!(app.handle_key(Key::Char('u')), Action::Nothing);
    assert_eq!(app.screen, Screen::PackageList);
}

#[test]
fn selection_keys() {
    let mut app = on_list();
    app.handle_key(Key::Down);
    app.handle_key(Key::Char(' '));
    assert!(app.packages[1].selected);
    app.handle_key(Key::Char(' '));
    assert!(!app.packages[1].selected);
    app.handle_key(Key::Char('a'));
    assert!(app.packages.iter().all(|p| p.selected));
    app.handle_key(Key::Char('d'));
    assert!(app.packages.iter().all(|p| !p.selected));
}

#[test]
fn upgrade_without_selection_does_nothing() {
    let mut app = on_list();
    assert_eq!(app.handle_key(Key::Char('u')), Action::Nothing);
    assert_eq!(app.screen, Screen::PackageList);
    assert!(app.upgrade_list.is_empty());
}

#[test]
fn upgrade_flow() {
    let mut app = on_list();
    app.handle_key(Key::Char(' '));
    app.handle_key(Key::Down);
    app.handle_key(Key::Down);
    app.handle_key(Key::Char(' '));
    assert_eq!(selected_package_names(&app.packages), vec!["vim".to_string(), "git".to_string()]);
    let a = app.handle_key(Key::Char('u'));
    assert_eq!(
        a,
        Action::StartUpgrade {
            password: "pw".to_string(),
            packages: vec!["vim".to_string(), "git".to_string()],
        }
    );
    assert_eq!(app.screen, Screen::Upgrading);
    assert_eq!(app.upgrade_total, 2);
    assert_eq!(app.upgrade_progress, 0);
    assert_eq!(app.current_pkg, "vim");
    assert_eq!(app.upgrade_logs, vec!["Starting upgrade...".to_string()]);

    // enter does nothing before the end
    assert_eq!(app.handle_key(Key::Enter), Action::Nothing);
    assert_eq!(app.screen, Screen::Upgrading);

    assert!(!app.upgrade_message("Reading package lists..."));
    assert_eq!(app.upgrade_progress, 0);
    assert!(!app.upgrade_message("Unpacking vim (2:8.2.3995-1ubuntu2.13) over (2:8.2.3995-1ubuntu2.12) ..."));
    assert_eq!(app.upgrade_progress, 1);
    assert_eq!(app.current_pkg, "(2:8.2.3995-1ubuntu2.13)");
    assert!(!app.upgrade_message("Setting up git (1:2.34.1-1ubuntu1.11) ..."));
    assert_eq!(app.upgrade_progress, 2);
    assert_eq!(app.current_pkg, "git");
    assert!(!app.upgrade_message("Setting up vim (2:8.2) ..."));
    assert_eq!(app.upgrade_progress, 2);
    assert!(!app.upgrade_message("Unpacking"));
    assert_eq!(app.current_pkg, "");
    assert!(!app.upgrade_message("__ERROR__"));
    assert_eq!(app.upgrade_logs.last().unwrap(), "__ERROR__");

    assert!(app.upgrade_message("__DONE__"));
    assert_eq!(app.upgrade_progress, 2);
    let n = app.upgrade_logs.len();
    assert_eq!(&app.upgrade_logs[n - 3..], &["".to_string(), "✅ All packages upgraded!".to_string(), "Press Enter to go back...".to_string()]);

    app.advance_spinner();
    assert_eq!(app.spinner_tick, 1);
    assert_eq!(app.handle_key(Key::Enter), Action::Nothing);
    assert_eq!(app.screen, Screen::PackageList);
    assert_eq!(app.spinner_tick, 0);
}

#[test]
fn spinner_advances() {
    let mut app = typed("pw");
    app.handle_key(Key::Enter);
    app.advance_spinner();
    app.advance_spinner();
    assert_eq!(app.spinner_tick, 2);
}

#[test]
fn sudo_prompt_lines() {
    assert!(atpspy::app::is_sudo_prompt("[sudo] password for user:"));
    assert!(!atpspy::app::is_sudo_prompt("E: Unable to locate package"));
}

#[test]
fn q_quits_except_on_password_screen() {
    let mut app = typed("pw");
    app.handle_key(Key::Enter);
    assert_eq!(app.screen, Screen::Scanning);
    assert_eq!(app.handle_key(Key::Char('q')), Action::Quit);

    let mut app = on_list();
    app.handle_key(Key::Char('a'));
    app.handle_key(Key::Char('u'));
    assert_eq!(app.screen, Screen::Upgrading);
    assert_eq!(app.handle_key(Key::Char('q')), Action::Quit);
}
