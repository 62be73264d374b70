//! The built-in command table: `cd`, `help`, `exit`.

use crate::response::{response_is, Response};
use vstd::prelude::*;

verus! {

/// The built-in commands, in registry order.
#[derive(Clone, Copy, PartialEq, Eq, Structural, Debug)]
pub enum Builtin {
    Cd,
    Help,
    Exit,
}

/// Which built-in, if any, a command name selects. Matching is exact and
/// case-sensitive; no prefix or abbreviation matching.
pub open spec fn lookup_spec(name: Seq<char>) -> Option<Builtin> {
    if name == "cd"@ {
        Some(Builtin::Cd)
    } else if name == "help"@ {
        Some(Builtin::Help)
    } else if name == "exit"@ {
        Some(Builtin::Exit)
    } else {
        None
    }
}

/// Looks a command name up in the built-in registry.
pub fn lookup(name: &String) -> (r: Option<Builtin>)
    ensures
        r == lookup_spec(name@),
{
    if *name == "cd".to_owned() {
        Some(Builtin::Cd)
    } else if *name == "help".to_owned() {
        Some(Builtin::Help)
    } else if *name == "exit".to_owned() {
        Some(Builtin::Exit)
    } else {
        None
    }
}

/// The lines the `help` built-in prints: a banner, the built-in names in
/// registry order, and a closing line.
pub open spec fn help_lines_spec() -> Seq<Seq<char>> {
    seq![
        "Stephen Brennan's LSH"@,
        "Type program names and arguments, and hit enter."@,
        "The following are built in:"@,
        "cd"@,
        "help"@,
        "exit"@,
        "Use the man command for information on other programs."@,
    ]
}

/// Builds the `help` output.
pub fn help_lines() -> (r: Vec<String>)
    ensures
        r.deep_view() == help_lines_spec(),
{
    let mut v: Vec<String> = Vec::new();
    v.push("Stephen Brennan's LSH".to_owned());
    v.push("Type program names and arguments, and hit enter.".to_owned());
    v.push("The following are built in:".to_owned());
    v.push("cd".to_owned());
    v.push("help".to_owned());
    v.push("exit".to_owned());
    v.push("Use the man command for information on other programs.".to_owned());
    proof {
        assert(v.deep_view() =~= help_lines_spec());
    }
    v
}

/// The `exit` built-in: signals loop termination whatever its arguments,
/// with no side effects.
pub fn lsh_exit(_args: Vec<String>) -> (status: i32)
    ensures
        status == 0,
{
    0
}

/// The error line printed when `cd` is given no argument.
pub open spec fn cd_missing_message() -> Seq<char> {
    "lsh: expected argument to \"cd\""@
}

/// The error line printed when changing directory to `path` fails with the
/// operating system's error text `err`.
pub open spec fn cd_failure_message(path: Seq<char>, err: Seq<char>) -> Seq<char> {
    "lsh: "@ + path + ": "@ + err
}

/// How the `cd` built-in's outcome is reported, given the result of the
/// directory change (`None` for success, `Some` holding the operating
/// system's error text otherwise): nothing on success, the failure message
/// on the error stream otherwise. The loop continues either way.
pub fn chdir_response(path: &String, error: &Option<String>) -> (r: Response)
    ensures
        error is None ==> response_is(
            r,
            Seq::<Seq<char>>::empty(),
            Seq::<Seq<char>>::empty(),
            1,
        ),
        error matches Some(e) ==> response_is(
            r,
            Seq::<Seq<char>>::empty(),
            seq![cd_failure_message(path@, e@)],
            1,
        ),
{
    match error {
        Option::None => crate::response::silent_response(1),
        Option::Some(e) => {
            let mut msg: String = "lsh: ".to_owned();
            msg.append(path.as_str());
            msg.append(": ");
            msg.append(e.as_str());
            let mut errs: Vec<String> = Vec::new();
            errs.push(msg);
            let r = Response { out_lines: Vec::new(), err_lines: errs, status: 1 };
            proof {
                assert(r.out_lines.deep_view() =~= Seq::<Seq<char>>::empty());
                assert(r.err_lines.deep_view() =~= seq![cd_failure_message(path@, e@)]);
            }
            r
        },
    }
}

} // verus!
