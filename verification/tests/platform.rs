use std::cell::{Cell, RefCell};

use session_lock::invoker::{Attempt, ProcessOutcome};
use session_lock::platform::{lock_session, resolve_attempts, Platform};

fn as_pairs(attempts: Vec<Attempt>) -> Vec<(String, Vec<String>)> {
    attempts.into_iter().map(|a| (a.program, a.args)).collect()
}

fn pair(program: &str, args: &[&str]) -> (String, Vec<String>) {
    (program.to_string(), args.iter().map(|a| a.to_string()).collect())
}

#[test]
fn windows_has_the_single_dedicated_command() {
    assert_eq!(
        as_pairs(resolve_attempts(Platform::Windows)),
        vec![pair("rundll32.exe", &["user32.dll,LockWorkStation"])]
    );
}

#[test]
fn macos_has_four_attempts_in_priority_order() {
    assert_eq!(
        as_pairs(resolve_attempts(Platform::MacOs)),
        vec![
            pair(
                "/System/Library/CoreServices/Menu Extras/User.menu/Contents/Resources/CGSession",
                &["-suspend"]
            ),
            pair(
                "/usr/bin/osascript",
                &[
                    "-e",
                    "tell application \"System Events\" to keystroke \"q\" using {control down, command down}"
                ]
            ),
            pair("/usr/bin/open", &["-a", "ScreenSaverEngine"]),
            pair("/usr/bin/pmset", &["displaysleepnow"]),
        ]
    );
}

#[test]
fn linux_has_three_attempts_in_priority_order() {
    assert_eq!(
        as_pairs(resolve_attempts(Platform::Linux)),
        vec![
            pair("loginctl", &["lock-session"]),
            pair("xdg-screensaver", &["lock"]),
            pair("gnome-screensaver-command", &["-l"]),
        ]
    );
}

#[test]
fn unsupported_platform_has_no_attempts() {
    assert!(resolve_attempts(Platform::Unsupported).is_empty());
}

#[test]
fn lock_session_stops_at_the_first_successful_attempt() {
    let calls = Cell::new(0usize);
    let (r, _) = lock_session(Platform::Linux, |_: &Attempt| {
        calls.set(calls.get() + 1);
        ProcessOutcome::Exited { code: Some(0), stderr: String::new() }
    });
    assert_eq!(r, Ok(()));
    assert_eq!(calls.get(), 1);
}

#[test]
fn lock_session_falls_back_until_one_attempt_succeeds() {
    let seen = RefCell::new(Vec::new());
    let (r, _) = lock_session(Platform::Linux, |a: &Attempt| {
        seen.borrow_mut().push(a.program.clone());
        if a.program == "xdg-screensaver" {
            ProcessOutcome::Exited { code: Some(0), stderr: String::new() }
        } else {
            ProcessOutcome::SpawnFailed { error: "no existe".to_string() }
        }
    });
    assert_eq!(r, Ok(()));
    assert_eq!(seen.into_inner(), vec!["loginctl".to_string(), "xdg-screensaver".to_string()]);
}

#[test]
fn lock_session_aggregates_every_linux_failure_in_order() {
    let (r, _) = lock_session(Platform::Linux, |a: &Attempt| {
        ProcessOutcome::SpawnFailed { error: format!("falta {}", a.program) }
    });
    assert_eq!(
        r,
        Err("No se pudo ejecutar 'loginctl': falta loginctl | \
             No se pudo ejecutar 'xdg-screensaver': falta xdg-screensaver | \
             No se pudo ejecutar 'gnome-screensaver-command': falta gnome-screensaver-command"
            .to_string())
    );
}

#[test]
fn lock_session_on_an_unknown_platform_spawns_nothing() {
    let calls = Cell::new(0usize);
    let (r, _) = lock_session(Platform::Unsupported, |_: &Attempt| {
        calls.set(calls.get() + 1);
        ProcessOutcome::Exited { code: Some(0), stderr: String::new() }
    });
    assert_eq!(
        r,
        Err("Sistema operativo no soportado para bloqueo de sesión.".to_string())
    );
    assert_eq!(calls.get(), 0);
}

#[test]
fn lock_session_reports_windows_stderr_trimmed() {
    let (r, _) = lock_session(Platform::Windows, |a: &Attempt| {
        assert_eq!(a.program, "rundll32.exe");
        assert_eq!(a.args, vec!["user32.dll,LockWorkStation".to_string()]);
        ProcessOutcome::Exited { code: Some(1), stderr: "  acceso denegado \r\n".to_string() }
    });
    assert_eq!(r, Err("acceso denegado".to_string()));
}
