//! A minimal interactive command interpreter, verified.
//!
//! The library holds the interpreter's logic: tokenizing an input line,
//! dispatching the first token to a built-in command or to an external
//! launch, and deciding how each outcome is reported and whether the
//! read-eval loop goes on. The surrounding process (prompting, reading
//! lines, changing directory, spawning programs) hands the library plain
//! values and performs the actions the library decides on.

pub mod builtins;
pub mod dispatch;
pub mod launcher;
pub mod numfmt;
pub mod repl;
pub mod response;
pub mod tokenizer;
