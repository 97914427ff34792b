//! The command runner's decision: resolve the user's shell from what the
//! environment lookup returned, and plan the invocation `shell -c command`.
//! Without a shell the runner fails with the configuration error and nothing
//! else happens; the exit status of the command is deliberately ignored.

use vstd::prelude::*;

verus! {

broadcast use vstd::string::group_string_axioms;

/// The configuration error: the shell environment variable is not set.
#[derive(Clone, Copy, PartialEq, Eq, Structural, Debug)]
pub enum ConfigError {
    ShellUnset,
}

impl ConfigError {
    /// The message shown when the shell variable is missing.
    pub fn message(&self) -> (r: &'static str)
        ensures
            r@ == "Please set $SHELL environemnt variable"@,
    {
        "Please set $SHELL environemnt variable"
    }
}

/// How the command runner invokes the user's shell: the shell binary and its
/// two arguments, `-c` followed by the command line.
#[derive(PartialEq, Eq, Debug)]
pub struct Invocation {
    pub program: String,
    pub args: Vec<String>,
}

/// The invocation `plan_command` builds for a shell `sh` and a command line.
pub open spec fn spec_invocation(inv: Invocation, sh: Seq<char>, command: Seq<char>) -> bool {
    &&& inv.program@ == sh
    &&& inv.args@.len() == 2
    &&& inv.args@[0]@ == "-c"@
    &&& inv.args@[1]@ == command
}

/// Plan one run of the command. `shell` is what the environment lookup gave:
/// with no shell set, the runner fails with the configuration error, for
/// every command string and before anything else is done; with a shell it
/// runs `shell -c command` and ignores the exit status.
pub fn plan_command(shell: Option<String>, command: &str) -> (r: Result<Invocation, ConfigError>)
    ensures
        r is Err <==> shell is None,
        r is Err ==> r->Err_0 == ConfigError::ShellUnset,
        shell matches Some(sh) ==> (r matches Ok(inv) && spec_invocation(inv, sh@, command@)),
{
    match shell {
        None => Err(ConfigError::ShellUnset),
        Some(sh) => {
            let mut args: Vec<String> = Vec::new();
            args.push("-c".to_string());
            args.push(command.to_string());
            Ok(Invocation { program: sh, args })
        },
    }
}

} // verus!
