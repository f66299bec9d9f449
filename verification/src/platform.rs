//! The attempt-list resolver and the session-lock action: a fixed table
//! maps each platform family to its ordered list of candidate commands,
//! and locking composes that table with the fallback dispatcher.

use vstd::prelude::*;
use crate::dispatch::{dispatch_post, programs_of, try_commands};
use crate::invoker::{Attempt, ProcessOutcome};
use crate::text::str_views;

verus! {

/// The platform the session runs on, as an explicit value, so that the
/// attempt list a dispatch works through is a testable function of it.
#[derive(Clone, Copy)]
pub enum Platform {
    Windows,
    MacOs,
    Linux,
    Unsupported,
}

/// The fixed attempt table: for each platform, the ordered list of
/// (program, arguments) candidates for locking the session.  Windows
/// needs a single dedicated command; macOS falls from a dedicated
/// session-lock utility through a scripted keystroke, the screen saver
/// and display sleep; Linux falls from the session manager through two
/// screen-saver commands; anything else gets no attempt at all.
pub open spec fn attempts_for(p: Platform) -> Seq<(Seq<char>, Seq<Seq<char>>)> {
    match p {
        Platform::Windows => seq![("rundll32.exe"@, seq!["user32.dll,LockWorkStation"@])],
        Platform::MacOs => seq![
            (
                "/System/Library/CoreServices/Menu Extras/User.menu/Contents/Resources/CGSession"@,
                seq!["-suspend"@],
            ),
            (
                "/usr/bin/osascript"@,
                seq![
                    "-e"@,
                    "tell application \"System Events\" to keystroke \"q\" using {control down, command down}"@,
                ],
            ),
            ("/usr/bin/open"@, seq!["-a"@, "ScreenSaverEngine"@]),
            ("/usr/bin/pmset"@, seq!["displaysleepnow"@]),
        ],
        Platform::Linux => seq![
            ("loginctl"@, seq!["lock-session"@]),
            ("xdg-screensaver"@, seq!["lock"@]),
            ("gnome-screensaver-command"@, seq!["-l"@]),
        ],
        Platform::Unsupported => Seq::empty(),
    }
}

/// The programs of the attempt table for `p`, in priority order.
pub open spec fn table_programs(p: Platform) -> Seq<Seq<char>> {
    attempts_for(p).map_values(|t: (Seq<char>, Seq<Seq<char>>)| t.0)
}

fn make_attempt(program: &str, args: Vec<String>) -> (r: Attempt)
    ensures
        r.prog_view() == program@,
        r.args_view() == str_views(args@),
{
    Attempt { program: program.to_owned(), args }
}

fn one_arg(a0: &str) -> (r: Vec<String>)
    ensures
        str_views(r@) == seq![a0@],
{
    let mut v: Vec<String> = Vec::new();
    v.push(a0.to_owned());
    proof {
        assert(str_views(v@) =~= seq![a0@]);
    }
    v
}

fn two_args(a0: &str, a1: &str) -> (r: Vec<String>)
    ensures
        str_views(r@) == seq![a0@, a1@],
{
    let mut v: Vec<String> = Vec::new();
    v.push(a0.to_owned());
    v.push(a1.to_owned());
    proof {
        assert(str_views(v@) =~= seq![a0@, a1@]);
    }
    v
}

/// Resolves a platform to its ordered candidate list, exactly as the
/// fixed table states it.
pub fn resolve_attempts(platform: Platform) -> (r: Vec<Attempt>)
    ensures
        r@.len() == attempts_for(platform).len(),
        forall|j: int|
            0 <= j < r@.len() ==> (#[trigger] r@[j]).prog_view() == attempts_for(platform)[j].0
                && r@[j].args_view() == attempts_for(platform)[j].1,
{
    let mut v: Vec<Attempt> = Vec::new();
    match platform {
        Platform::Windows => {
            v.push(make_attempt("rundll32.exe", one_arg("user32.dll,LockWorkStation")));
        },
        Platform::MacOs => {
            v.push(
                make_attempt(
                    "/System/Library/CoreServices/Menu Extras/User.menu/Contents/Resources/CGSession",
                    one_arg("-suspend"),
                ),
            );
            v.push(
                make_attempt(
                    "/usr/bin/osascript",
                    two_args(
                        "-e",
                        "tell application \"System Events\" to keystroke \"q\" using {control down, command down}",
                    ),
                ),
            );
            v.push(make_attempt("/usr/bin/open", two_args("-a", "ScreenSaverEngine")));
            v.push(make_attempt("/usr/bin/pmset", one_arg("displaysleepnow")));
        },
        Platform::Linux => {
            v.push(make_attempt("loginctl", one_arg("lock-session")));
            v.push(make_attempt("xdg-screensaver", one_arg("lock")));
            v.push(make_attempt("gnome-screensaver-command", one_arg("-l")));
        },
        Platform::Unsupported => {},
    }
    v
}

/// The session-lock action: resolves the platform's candidate list and
/// dispatches over it, handing the result back unchanged, together with
/// the ghost log of observed process outcomes.  One fallback search per
/// call, exactly as `dispatch_post` states over the platform's table.
pub fn lock_session<F: Fn(&Attempt) -> ProcessOutcome>(platform: Platform, run: F) -> (r: (
    Result<(), String>,
    Ghost<Seq<ProcessOutcome>>,
))
    requires
        forall|a: &Attempt| #[trigger] call_requires(run, (a,)),
    ensures
        dispatch_post(table_programs(platform), r.1@, r.0),
        forall|j: int|
            0 <= j < r.1@.len() ==> exists|a: Attempt|
                a.prog_view() == table_programs(platform)[j] && a.args_view() == attempts_for(
                    platform,
                )[j].1 && call_ensures(run, (&a,), #[trigger] r.1@[j]),
{
    let attempts = resolve_attempts(platform);
    let r = try_commands(&attempts, run);
    proof {
        assert(programs_of(attempts@) =~= table_programs(platform));
        assert forall|j: int| 0 <= j < r.1@.len() implies exists|a: Attempt|
            a.prog_view() == table_programs(platform)[j] && a.args_view() == attempts_for(
                platform,
            )[j].1 && call_ensures(run, (&a,), #[trigger] r.1@[j]) by {
            let a = attempts@[j];
            assert(a.prog_view() == table_programs(platform)[j] && a.args_view()
                == attempts_for(platform)[j].1 && call_ensures(run, (&a,), r.1@[j]));
        }
    }
    r
}

} // verus!
