//! Deciding what a token sequence asks for: nothing, a built-in, or an
//! external launch.

use crate::builtins::{
    cd_missing_message, help_lines, help_lines_spec, lookup, lookup_spec, lsh_exit, Builtin,
};
use crate::response::{response_is, silent_response, Response};
use vstd::prelude::*;

verus! {

/// What one command line asks the surrounding process to do.
pub enum Directive {
    /// Fully handled by the library: print the lines, use the status.
    Respond(Response),
    /// The `cd` built-in with an argument: attempt to change the working
    /// directory to the path.
    ChangeDir(String),
    /// Not a built-in: launch the named program with the arguments
    /// (the first token is the program name).
    Launch(Vec<String>),
}

/// The dispatcher's contract, over the token sequence `ts`:
/// - an empty sequence is a no-op that continues the loop;
/// - `cd` without an argument reports the missing argument and continues,
///   `cd` with one asks for the directory change;
/// - `help` prints its fixed lines and continues;
/// - `exit` terminates the loop, whatever its arguments;
/// - any other first token asks for an external launch of the full
///   sequence.
pub open spec fn dispatch_post(ts: Seq<Seq<char>>, d: Directive) -> bool {
    if ts.len() == 0 {
        d matches Directive::Respond(r) && response_is(
            r,
            Seq::<Seq<char>>::empty(),
            Seq::<Seq<char>>::empty(),
            1,
        )
    } else {
        match lookup_spec(ts[0]) {
            Some(Builtin::Cd) => if ts.len() < 2 {
                d matches Directive::Respond(r) && response_is(
                    r,
                    Seq::<Seq<char>>::empty(),
                    seq![cd_missing_message()],
                    1,
                )
            } else {
                d matches Directive::ChangeDir(p) && p@ == ts[1]
            },
            Some(Builtin::Help) => d matches Directive::Respond(r) && response_is(
                r,
                help_lines_spec(),
                Seq::<Seq<char>>::empty(),
                1,
            ),
            Some(Builtin::Exit) => d matches Directive::Respond(r) && response_is(
                r,
                Seq::<Seq<char>>::empty(),
                Seq::<Seq<char>>::empty(),
                0,
            ),
            None => d matches Directive::Launch(a) && a.deep_view() == ts,
        }
    }
}

/// Decides how a token sequence is handled. Every sequence is handled by
/// exactly one built-in or by the launcher; an empty one is a no-op.
pub fn dispatch(args: Vec<String>) -> (d: Directive)
    ensures
        dispatch_post(args.deep_view(), d),
{
    if args.len() == 0 {
        Directive::Respond(silent_response(1))
    } else {
        proof {
            assert(args.deep_view()[0] == args@[0]@);
        }
        match lookup(&args[0]) {
            Some(Builtin::Cd) => {
                if args.len() < 2 {
                    let mut errs: Vec<String> = Vec::new();
                    errs.push("lsh: expected argument to \"cd\"".to_owned());
                    let r = Response { out_lines: Vec::new(), err_lines: errs, status: 1 };
                    proof {
                        assert(r.out_lines.deep_view() =~= Seq::<Seq<char>>::empty());
                        assert(r.err_lines.deep_view() =~= seq![cd_missing_message()]);
                    }
                    Directive::Respond(r)
                } else {
                    proof {
                        assert(args.deep_view()[1] == args@[1]@);
                    }
                    Directive::ChangeDir(args[1].clone())
                }
            },
            Some(Builtin::Help) => {
                let r = Response { out_lines: help_lines(), err_lines: Vec::new(), status: 1 };
                proof {
                    assert(r.err_lines.deep_view() =~= Seq::<Seq<char>>::empty());
                }
                Directive::Respond(r)
            },
            Some(Builtin::Exit) => {
                let status = lsh_exit(args);
                Directive::Respond(silent_response(status))
            },
            None => Directive::Launch(args),
        }
    }
}

} // verus!
