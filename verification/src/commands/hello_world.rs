//! The command that says hello.

use crate::interaction::{message, CommandInfo, Reply};
use vstd::prelude::*;
use vstd::string::StringExecFns;

verus! {

/// The name of the command.
pub const NAME: &'static str = "hello";

/// Says hello.
pub fn run() -> (reply: Reply)
    ensures
        reply@ == message("Hello"@, false, None),
{
    Reply::message(String::from_str("Hello"), false, None)
}

/// How the command is registered.
pub fn register() -> (info: CommandInfo)
    ensures
        info.name@ == NAME@,
        info.description@ == "Says hello"@,
{
    CommandInfo { name: String::from_str(NAME), description: String::from_str("Says hello") }
}

} // verus!
