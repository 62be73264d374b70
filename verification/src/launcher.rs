//! Reporting the outcome of an external program launch.
//!
//! The spawn and the wait themselves are operating-system work done by the
//! surrounding process; it hands the library the outcome as a plain value,
//! and the library decides exactly what is reported and that the loop goes
//! on.

use crate::numfmt::{i32_string, int_str};
use crate::response::{response_is, Response};
use vstd::prelude::*;

verus! {

/// The outcome of trying to launch an external program and waiting for it.
pub enum LaunchOutcome {
    /// The child ran to completion and exited with the given code.
    Exited(i32),
    /// The program could not be found or spawned; the reason's text.
    SpawnFailed(String),
}

/// The line printed when a child exits with code zero.
pub open spec fn success_message() -> Seq<char> {
    "Shell common Command executed successfully"@
}

/// The error line printed when a child exits with the given nonzero code.
pub open spec fn exit_code_message(code: int) -> Seq<char> {
    "Command failed with exit code: "@ + int_str(code)
}

/// The error line printed when a program cannot be spawned, given the
/// reason's text.
pub open spec fn spawn_failure_message(err: Seq<char>) -> Seq<char> {
    "lsh: "@ + err
}

/// The launcher's reporting contract: a zero exit code is announced on
/// standard output, a nonzero one and a failed spawn on the error stream,
/// and the status is `1` in every case — a failing child never terminates
/// the interpreter loop.
pub open spec fn launch_report_post(outcome: LaunchOutcome, r: Response) -> bool {
    match outcome {
        LaunchOutcome::Exited(c) => if c == 0 {
            response_is(r, seq![success_message()], Seq::<Seq<char>>::empty(), 1)
        } else {
            response_is(r, Seq::<Seq<char>>::empty(), seq![exit_code_message(c as int)], 1)
        },
        LaunchOutcome::SpawnFailed(e) => response_is(
            r,
            Seq::<Seq<char>>::empty(),
            seq![spawn_failure_message(e@)],
            1,
        ),
    }
}

/// Decides what a launch outcome prints and that the loop continues.
pub fn launch_report(outcome: &LaunchOutcome) -> (r: Response)
    ensures
        launch_report_post(*outcome, r),
        r.status == 1,
{
    match outcome {
        LaunchOutcome::Exited(c) => {
            if *c == 0 {
                let mut outs: Vec<String> = Vec::new();
                outs.push("Shell common Command executed successfully".to_owned());
                let r = Response { out_lines: outs, err_lines: Vec::new(), status: 1 };
                proof {
                    assert(r.out_lines.deep_view() =~= seq![success_message()]);
                    assert(r.err_lines.deep_view() =~= Seq::<Seq<char>>::empty());
                }
                r
            } else {
                let mut msg: String = "Command failed with exit code: ".to_owned();
                let code = i32_string(*c);
                msg.append(code.as_str());
                let mut errs: Vec<String> = Vec::new();
                errs.push(msg);
                let r = Response { out_lines: Vec::new(), err_lines: errs, status: 1 };
                proof {
                    assert(r.out_lines.deep_view() =~= Seq::<Seq<char>>::empty());
                    assert(r.err_lines.deep_view() =~= seq![exit_code_message(*c as int)]);
                }
                r
            }
        },
        LaunchOutcome::SpawnFailed(e) => {
            let mut msg: String = "lsh: ".to_owned();
            msg.append(e.as_str());
            let mut errs: Vec<String> = Vec::new();
            errs.push(msg);
            let r = Response { out_lines: Vec::new(), err_lines: errs, status: 1 };
            proof {
                assert(r.out_lines.deep_view() =~= Seq::<Seq<char>>::empty());
                assert(r.err_lines.deep_view() =~= seq![spawn_failure_message(e@)]);
            }
            r
        },
    }
}

} // verus!
