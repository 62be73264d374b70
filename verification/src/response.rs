//! What a handled command hands back to the loop: lines to print and the
//! loop-control status.

use vstd::prelude::*;

verus! {

/// The outcome of a command handled by the library: lines for standard
/// output, lines for the error stream, and the execution status.
///
/// The status is a loop-control signal, not a process exit code: `0` means
/// "terminate the loop", any nonzero value means "continue".
pub struct Response {
    /// Lines to print on standard output, in order.
    pub out_lines: Vec<String>,
    /// Lines to print on the error stream, in order.
    pub err_lines: Vec<String>,
    /// The execution status: `0` terminates the read-eval loop.
    pub status: i32,
}

/// Pins a response down: its output lines, error lines and status are
/// exactly the given ones.
pub open spec fn response_is(
    r: Response,
    out: Seq<Seq<char>>,
    err: Seq<Seq<char>>,
    status: int,
) -> bool {
    &&& r.out_lines.deep_view() == out
    &&& r.err_lines.deep_view() == err
    &&& r.status == status
}

/// An empty response: nothing printed, the given status.
pub fn silent_response(status: i32) -> (r: Response)
    ensures
        response_is(r, Seq::<Seq<char>>::empty(), Seq::<Seq<char>>::empty(), status as int),
{
    let r = Response { out_lines: Vec::new(), err_lines: Vec::new(), status };
    proof {
        assert(r.out_lines.deep_view() =~= Seq::<Seq<char>>::empty());
        assert(r.err_lines.deep_view() =~= Seq::<Seq<char>>::empty());
    }
    r
}

} // verus!
