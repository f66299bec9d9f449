//! The fallback dispatcher: walk an ordered attempt list through an
//! injected invoker, stop at the first success, and aggregate every
//! failure diagnostic otherwise.
//!
//! Each call hands back, beside the result, a ghost log of the outcomes
//! the invoker returned, one per attempt actually run.  The contract
//! `dispatch_post` pins the result down as a function of the attempt
//! list and that log, and the public lemmas below state the dispatch
//! laws over it.

use vstd::prelude::*;
use vstd::string::StringExecFns;
use crate::invoker::{Attempt, ProcessOutcome, classify_outcome, failure_diag, outcome_ok};
use crate::text::str_views;

verus! {

/// The fixed diagnostic for a platform with no attempts at all.
pub open spec fn unsupported_msg() -> Seq<char> {
    "Sistema operativo no soportado para bloqueo de sesión."@
}

/// The fixed delimiter between aggregated failure diagnostics.
pub open spec fn diag_sep() -> Seq<char> {
    " | "@
}

/// Segments joined by the fixed delimiter, in order: empty for no
/// segments, and one delimiter between each neighbouring pair.
pub open spec fn joined(segments: Seq<Seq<char>>) -> Seq<char>
    decreases segments.len(),
{
    if segments.len() == 0 {
        Seq::empty()
    } else if segments.len() == 1 {
        segments[0]
    } else {
        joined(segments.drop_last()) + diag_sep() + segments.last()
    }
}

/// The failure diagnostic of each logged outcome, in attempt order.
pub open spec fn diag_seq(programs: Seq<Seq<char>>, log: Seq<ProcessOutcome>) -> Seq<Seq<char>> {
    Seq::new(log.len(), |j: int| failure_diag(programs[j], log[j]))
}

/// The programs of an attempt list, in order.
pub open spec fn programs_of(attempts: Seq<Attempt>) -> Seq<Seq<char>> {
    attempts.map_values(|a: Attempt| a.prog_view())
}

/// What dispatching over `programs` established, given the ghost log of
/// observed outcomes: the log covers a prefix of the attempts and only
/// its last entry can be a success; success is reported exactly when
/// that last entry is one; with no attempts the fixed unsupported
/// diagnostic comes back at once, and when every attempt failed the
/// diagnostic is every failure diagnostic joined in attempt order.
pub open spec fn dispatch_post(
    programs: Seq<Seq<char>>,
    log: Seq<ProcessOutcome>,
    r: Result<(), String>,
) -> bool {
    &&& log.len() <= programs.len()
    &&& forall|j: int| 0 <= j < log.len() - 1 ==> !outcome_ok(#[trigger] log[j])
    &&& match r {
        Ok(_) => log.len() >= 1 && outcome_ok(log.last()),
        Err(m) => {
            &&& forall|j: int| 0 <= j < log.len() ==> !outcome_ok(#[trigger] log[j])
            &&& if programs.len() == 0 {
                log.len() == 0 && m@ == unsupported_msg()
            } else {
                log.len() == programs.len() && m@ == joined(diag_seq(programs, log))
            }
        },
    }
}

fn join_diags(parts: &Vec<String>) -> (r: String)
    ensures
        r@ == joined(str_views(parts@)),
{
    let mut r = String::new();
    let mut i: usize = 0;
    while i < parts.len()
        invariant
            i <= parts.len(),
            r@ == joined(str_views(parts@).take(i as int)),
        decreases parts.len() - i,
    {
        if i > 0 {
            r.append(" | ");
        }
        r.append(parts[i].as_str());
        proof {
            let views = str_views(parts@);
            assert(views.take(i + 1).drop_last() =~= views.take(i as int));
            assert(views.take(i + 1).last() == parts@[i as int]@);
            if i == 0 {
                assert(r@ =~= views.take(1)[0]);
            }
        }
        i += 1;
    }
    proof {
        assert(str_views(parts@).take(parts@.len() as int) =~= str_views(parts@));
    }
    r
}

/// Walks the attempts strictly in order through the invoker `run`,
/// returning success at the first attempt that succeeds and never
/// running a later one; when every attempt fails, or there is none, the
/// aggregated failure comes back, as `dispatch_post` states.  The ghost
/// log holds the outcomes the invoker returned, one per attempt run.
pub fn try_commands<F: Fn(&Attempt) -> ProcessOutcome>(attempts: &Vec<Attempt>, run: F) -> (r: (
    Result<(), String>,
    Ghost<Seq<ProcessOutcome>>,
))
    requires
        forall|a: &Attempt| #[trigger] call_requires(run, (a,)),
    ensures
        dispatch_post(programs_of(attempts@), r.1@, r.0),
        forall|j: int|
            0 <= j < r.1@.len() ==> call_ensures(run, (&attempts@[j],), #[trigger] r.1@[j]),
{
    let ghost mut log: Seq<ProcessOutcome> = Seq::empty();
    if attempts.len() == 0 {
        let m = "Sistema operativo no soportado para bloqueo de sesión.".to_owned();
        return (Err(m), Ghost(log));
    }
    let mut errors: Vec<String> = Vec::new();
    let mut i: usize = 0;
    while i < attempts.len()
        invariant
            forall|a: &Attempt| #[trigger] call_requires(run, (a,)),
            i <= attempts.len(),
            log.len() == i,
            errors.len() == i,
            forall|j: int| 0 <= j < i ==> !outcome_ok(#[trigger] log[j]),
            forall|j: int|
                0 <= j < i ==> call_ensures(run, (&attempts@[j],), #[trigger] log[j]),
            forall|j: int|
                0 <= j < i ==> (#[trigger] errors@[j])@ == failure_diag(
                    attempts@[j].prog_view(),
                    log[j],
                ),
        decreases attempts.len() - i,
    {
        let attempt = &attempts[i];
        let outcome = run(attempt);
        proof {
            log = log.push(outcome);
        }
        match classify_outcome(attempt, &outcome) {
            Ok(()) => {
                return (Ok(()), Ghost(log));
            },
            Err(e) => errors.push(e),
        }
        i += 1;
    }
    let m = join_diags(&errors);
    proof {
        assert(str_views(errors@) =~= diag_seq(programs_of(attempts@), log));
    }
    (Err(m), Ghost(log))
}

/// First success wins: over a non-empty attempt list whose first
/// observed outcome succeeded, the dispatcher reported success and ran
/// the invoker exactly once.
pub proof fn lemma_first_success_stops(
    programs: Seq<Seq<char>>,
    log: Seq<ProcessOutcome>,
    r: Result<(), String>,
)
    requires
        dispatch_post(programs, log, r),
        programs.len() > 0,
        log.len() > 0,
        outcome_ok(log[0]),
    ensures
        r is Ok,
        log.len() == 1,
{
}

/// A success right after a failure ends the dispatch: when outcome `i`
/// failed and outcome `i + 1` succeeded, the dispatcher reported success
/// — so no aggregated failure was ever built — and ran nothing further.
pub proof fn lemma_success_after_failure(
    programs: Seq<Seq<char>>,
    log: Seq<ProcessOutcome>,
    r: Result<(), String>,
    i: int,
)
    requires
        dispatch_post(programs, log, r),
        0 <= i,
        i + 1 < log.len(),
        outcome_ok(log[i + 1]),
    ensures
        r is Ok,
        !outcome_ok(log[i]),
        log.len() == i + 2,
{
}

/// When every observed outcome over a non-empty attempt list failed, the
/// dispatcher ran every attempt and reported the failure diagnostics of
/// all of them, joined by the fixed delimiter in attempt order.
pub proof fn lemma_all_attempts_fail(
    programs: Seq<Seq<char>>,
    log: Seq<ProcessOutcome>,
    r: Result<(), String>,
)
    requires
        dispatch_post(programs, log, r),
        programs.len() > 0,
        forall|j: int| 0 <= j < log.len() ==> !outcome_ok(#[trigger] log[j]),
    ensures
        log.len() == programs.len(),
        r matches Err(m) && m@ == joined(diag_seq(programs, log)),
        diag_seq(programs, log).len() == programs.len(),
{
    if r is Ok {
        assert(outcome_ok(log.last()));
    }
}

/// An empty attempt list fails at once with the fixed unsupported
/// diagnostic, and the invoker never ran.
pub proof fn lemma_empty_list(
    programs: Seq<Seq<char>>,
    log: Seq<ProcessOutcome>,
    r: Result<(), String>,
)
    requires
        dispatch_post(programs, log, r),
        programs.len() == 0,
    ensures
        log.len() == 0,
        r matches Err(m) && m@ == unsupported_msg(),
{
}

} // verus!
