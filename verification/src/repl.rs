//! The read-eval loop's control decisions.
//!
//! The loop itself lives in the surrounding process: it prompts, reads a
//! line, and performs directives. The decisions — what each read outcome
//! leads to, and whether a status keeps the loop running — are made here.

use vstd::prelude::*;

verus! {

/// What one attempt to read a line of input produced.
pub enum ReadEvent {
    /// A line was read (it may still carry its trailing newline; the
    /// tokenizer treats the newline as a delimiter).
    Line(String),
    /// The input stream ended cleanly.
    EndOfInput,
    /// Reading failed; the error's text.
    Failed(String),
}

/// What the loop must do with a read outcome.
pub enum ReadStep {
    /// Tokenize and dispatch the line.
    Proceed(String),
    /// Stop the whole process with the exit code, after printing the error
    /// line, if one is given, on the error stream.
    Terminate { code: i32, err_line: Option<String> },
}

/// The error line printed on a fatal read failure, given the error's text.
pub open spec fn getline_failure_message(err: Seq<char>) -> Seq<char> {
    "lsh: getline "@ + err
}

/// Decides what a read outcome leads to: a read line is interpreted;
/// end-of-input stops the process cleanly with exit code `0`; any other
/// read failure is fatal and stops it with exit code `1` after reporting.
pub fn read_step(event: ReadEvent) -> (step: ReadStep)
    ensures
        event matches ReadEvent::Line(l) ==> (step matches ReadStep::Proceed(s) && s@ == l@),
        event is EndOfInput ==> (step matches ReadStep::Terminate { code, err_line } && code == 0
            && err_line is None),
        event matches ReadEvent::Failed(e) ==> (step matches ReadStep::Terminate { code, err_line }
            && code == 1 && (err_line matches Some(m) && m@ == getline_failure_message(e@))),
{
    match event {
        ReadEvent::Line(l) => ReadStep::Proceed(l),
        ReadEvent::EndOfInput => ReadStep::Terminate { code: 0, err_line: None },
        ReadEvent::Failed(e) => {
            let mut msg: String = "lsh: getline ".to_owned();
            msg.append(e.as_str());
            ReadStep::Terminate { code: 1, err_line: Some(msg) }
        },
    }
}

/// Whether an execution status keeps the loop running: only `0` stops it.
pub fn should_continue(status: i32) -> (r: bool)
    ensures
        r == (status != 0),
{
    status != 0
}

} // verus!
