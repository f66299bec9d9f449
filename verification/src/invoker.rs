//! The process invoker's data model and outcome classification: one
//! candidate command, what running it came to, and the diagnostic each
//! failing outcome produces.

use vstd::prelude::*;
use vstd::string::StringExecFns;
use crate::text::{int_decimal, push_int_decimal, str_views, trim_str, trimmed};

verus! {

/// One candidate command: a program identifier and its ordered argument
/// list.
pub struct Attempt {
    pub program: String,
    pub args: Vec<String>,
}

impl Attempt {
    /// The program identifier, as characters.
    pub open spec fn prog_view(self) -> Seq<char> {
        self.program@
    }

    /// The arguments, each as characters, in order.
    pub open spec fn args_view(self) -> Seq<Seq<char>> {
        str_views(self.args@)
    }
}

/// What running one program came to.
pub enum ProcessOutcome {
    /// The program could not be started; the text is the spawn error.
    SpawnFailed { error: String },
    /// The program ran to completion with this exit code (`None` when it
    /// was ended abnormally, say by a signal) and wrote this error
    /// output, captured untrimmed.
    Exited { code: Option<i32>, stderr: String },
}

/// An outcome counts as success exactly when the program exited with
/// code zero.
pub open spec fn outcome_ok(o: ProcessOutcome) -> bool {
    match o {
        ProcessOutcome::Exited { code, .. } => code == Some(0i32),
        ProcessOutcome::SpawnFailed { .. } => false,
    }
}

/// The diagnostic for a program that could not be started: it names the
/// program and carries the spawn error text.
pub open spec fn spawn_failure_msg(program: Seq<char>, error: Seq<char>) -> Seq<char> {
    "No se pudo ejecutar '"@ + program + "': "@ + error
}

/// The rendering of an exit code, stating explicitly when none is
/// available.
pub open spec fn exit_code_msg(code: Option<i32>) -> Seq<char> {
    match code {
        None => "Código de salida: None"@,
        Some(c) => "Código de salida: Some("@ + int_decimal(c as int) + ")"@,
    }
}

/// The diagnostic a failing outcome produces: the spawn-failure message
/// when the program never started; otherwise the trimmed error output
/// verbatim when there is any, and the exit-code rendering when there is
/// none.
pub open spec fn failure_diag(program: Seq<char>, o: ProcessOutcome) -> Seq<char> {
    match o {
        ProcessOutcome::SpawnFailed { error } => spawn_failure_msg(program, error@),
        ProcessOutcome::Exited { code, stderr } => if trimmed(stderr@).len() > 0 {
            trimmed(stderr@)
        } else {
            exit_code_msg(code)
        },
    }
}

/// A failing normal exit uses the trimmed error output verbatim as its
/// diagnostic when that output is non-empty, and otherwise falls back to
/// the exit-code rendering.
pub proof fn lemma_exited_diag_shape(program: Seq<char>, code: Option<i32>, stderr: String)
    ensures
        trimmed(stderr@).len() > 0 ==> failure_diag(
            program,
            ProcessOutcome::Exited { code, stderr },
        ) == trimmed(stderr@),
        trimmed(stderr@).len() == 0 ==> failure_diag(
            program,
            ProcessOutcome::Exited { code, stderr },
        ) == exit_code_msg(code),
{
}

fn exit_code_message(code: Option<i32>) -> (r: String)
    ensures
        r@ == exit_code_msg(code),
{
    match code {
        None => "Código de salida: None".to_owned(),
        Some(c) => {
            let mut m = "Código de salida: Some(".to_owned();
            push_int_decimal(c, &mut m);
            m.append(")");
            m
        },
    }
}

/// Classifies what one program run came to: success for a zero exit,
/// otherwise the failure diagnostic for this attempt and outcome.
pub fn classify_outcome(attempt: &Attempt, outcome: &ProcessOutcome) -> (r: Result<(), String>)
    ensures
        r is Ok <==> outcome_ok(*outcome),
        r matches Err(m) ==> m@ == failure_diag(attempt.prog_view(), *outcome),
{
    match outcome {
        ProcessOutcome::SpawnFailed { error } => {
            let mut m = "No se pudo ejecutar '".to_owned();
            m.append(attempt.program.as_str());
            m.append("': ");
            m.append(error.as_str());
            Err(m)
        },
        ProcessOutcome::Exited { code, stderr } => {
            let success = match code {
                Some(c) => *c == 0,
                None => false,
            };
            if success {
                Ok(())
            } else {
                let t = trim_str(stderr.as_str());
                if !t.is_empty() {
                    Err(t.to_owned())
                } else {
                    Err(exit_code_message(*code))
                }
            }
        },
    }
}

/// Runs one attempt through the given invoker and classifies the
/// outcome, which is also handed back as ghost state.
pub fn run_and_check<F: Fn(&Attempt) -> ProcessOutcome>(attempt: &Attempt, run: F) -> (r: (
    Result<(), String>,
    Ghost<ProcessOutcome>,
))
    requires
        call_requires(run, (attempt,)),
    ensures
        call_ensures(run, (attempt,), r.1@),
        r.0 is Ok <==> outcome_ok(r.1@),
        r.0 matches Err(m) ==> m@ == failure_diag(attempt.prog_view(), r.1@),
{
    let outcome = run(attempt);
    let ghost o = outcome;
    let res = classify_outcome(attempt, &outcome);
    (res, Ghost(o))
}

} // verus!
