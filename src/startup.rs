use vstd::prelude::*;

verus! {

/// How the process ends once the framework's run loop has returned.
#[derive(Debug)]
pub enum Exit {
    /// The run loop finished normally.
    Normal,
    /// The run loop failed: the process stops abnormally with this message.
    Abort(String),
}

/// The fixed words of the message for a failed run loop.
pub open spec fn run_failure_words() -> Seq<char> {
    "error while running tauri application"@
}

/// The message for a failed run loop whose error reads `detail`: the fixed
/// words, a colon and a space, then the error.
pub open spec fn run_failure_text(detail: Seq<char>) -> Seq<char> {
    run_failure_words() + ": "@ + detail
}

/// The message the process stops with when the run loop fails with an error
/// that reads `detail`.
pub fn run_failure_message(detail: &str) -> (r: String)
    ensures
        r@ == run_failure_text(detail@),
{
    let mut line = String::from_str("error while running tauri application");
    line.append(": ");
    line.append(detail);
    line
}

/// How the process ends after the run loop returned `outcome`, its error
/// given as text. A failure is never retried: the process aborts.
pub fn exit_after_run(outcome: Result<(), String>) -> (r: Exit)
    ensures
        outcome is Ok <==> r is Normal,
        outcome is Err ==> (r matches Exit::Abort(m) && m@ == run_failure_text(
            outcome->Err_0@,
        )),
{
    match outcome {
        Ok(()) => Exit::Normal,
        Err(detail) => Exit::Abort(run_failure_message(detail.as_str())),
    }
}

} // verus!
