use vstd::prelude::*;
use vstd::string::StringExecFns;

use crate::greeting::{greet, greeting_text};

verus! {

/// The commands that the presentation layer may invoke by name.
#[derive(Debug, Clone, Copy, PartialEq, Eq, Structural)]
pub enum Command {
    Greet,
}

/// Why an invocation produced no result.
#[derive(Debug, Clone, Copy, PartialEq, Eq, Structural)]
pub enum InvokeError {
    /// No command is registered under the requested name.
    NotFound,
    /// The arguments do not supply what the command's handler takes.
    BadArguments,
}

/// The registered command with the given name, if any.
pub open spec fn command_named(name: Seq<char>) -> Option<Command> {
    if name == "greet"@ {
        Some(Command::Greet)
    } else {
        None
    }
}

/// The value of the first argument at or after position `i` whose key is `key`.
pub open spec fn arg_from(args: Seq<(String, String)>, key: Seq<char>, i: int) -> Option<Seq<char>>
    decreases args.len() - i,
{
    if i < 0 || i >= args.len() {
        None
    } else if args[i].0@ == key {
        Some(args[i].1@)
    } else {
        arg_from(args, key, i + 1)
    }
}

/// The value of the first argument whose key is `key`.
pub open spec fn arg_value(args: Seq<(String, String)>, key: Seq<char>) -> Option<Seq<char>> {
    arg_from(args, key, 0)
}

/// What invoking the command `name` with `args` yields.
pub open spec fn invoke_result(name: Seq<char>, args: Seq<(String, String)>) -> Result<
    Seq<char>,
    InvokeError,
> {
    match command_named(name) {
        None => Err(InvokeError::NotFound),
        Some(Command::Greet) => match arg_value(args, "name"@) {
            None => Err(InvokeError::BadArguments),
            Some(v) => Ok(greeting_text(v)),
        },
    }
}

/// Resolves a command name against the registry.
pub fn lookup_command(name: &str) -> (r: Option<Command>)
    ensures
        r == command_named(name@),
{
    let n = String::from_str(name);
    let greet_name = String::from_str("greet");
    if n == greet_name {
        Some(Command::Greet)
    } else {
        None
    }
}

/// The value of the first argument whose key is `key`.
pub fn find_arg<'a>(args: &'a Vec<(String, String)>, key: &str) -> (r: Option<&'a String>)
    ensures
        match r {
            Some(v) => arg_value(args@, key@) == Some(v@),
            None => arg_value(args@, key@) is None,
        },
{
    let k = String::from_str(key);
    let mut i: usize = 0;
    while i < args.len()
        invariant
            0 <= i <= args@.len(),
            k@ == key@,
            arg_value(args@, key@) == arg_from(args@, key@, i as int),
        decreases args@.len() - i,
    {
        if args[i].0 == k {
            return Some(&args[i].1);
        }
        i = i + 1;
    }
    None
}

/// Dispatches the command `name` to its handler with the key-value arguments `args`.
pub fn invoke(name: &str, args: &Vec<(String, String)>) -> (r: Result<String, InvokeError>)
    ensures
        match r {
            Ok(s) => invoke_result(name@, args@) == Ok::<Seq<char>, InvokeError>(s@),
            Err(e) => invoke_result(name@, args@) == Err::<Seq<char>, InvokeError>(e),
        },
{
    match lookup_command(name) {
        None => Err(InvokeError::NotFound),
        Some(Command::Greet) => {
            match find_arg(args, "name") {
                None => Err(InvokeError::BadArguments),
                Some(v) => Ok(greet(v.as_str())),
            }
        },
    }
}

/// A name that no command is registered under yields the not-found failure,
/// whatever the arguments: an unknown command is a result for the caller,
/// never a fault of the process.
pub proof fn lemma_unregistered_command_not_found(name: Seq<char>, args: Seq<(String, String)>)
    requires
        command_named(name) is None,
    ensures
        invoke_result(name, args) == Err::<Seq<char>, InvokeError>(InvokeError::NotFound),
{
}

} // verus!
