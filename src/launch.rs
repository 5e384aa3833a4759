//! How a detached script is launched: which runner it gets and how it runs.
//! Spawning the process itself happens around this choice.
use vstd::prelude::*;

verus! {

/// The settings a detached script is started with.
#[derive(Debug, Clone)]
pub struct LaunchOptions {
    /// Runner named explicitly; `None` lets the launcher pick the platform's
    /// default interpreter.
    pub runner: Option<String>,
    /// Stop at the first command that fails.
    pub exit_on_error: bool,
    /// Echo each command before it runs.
    pub print_commands: bool,
    /// The child shares the caller's standard input, output and error.
    pub inherit_io: bool,
}

impl LaunchOptions {
    /// The settings for the host: on Linux a POSIX shell (`bash`) is named,
    /// elsewhere the default interpreter is left to the launcher. Scripts
    /// always stop at the first failing command, echo their commands, and use
    /// the caller's terminal.
    pub fn for_host(host_is_linux: bool) -> (r: Self)
        ensures
            r.runner is Some <==> host_is_linux,
            host_is_linux ==> r.runner->Some_0@ == "bash"@,
            r.exit_on_error,
            r.print_commands,
            r.inherit_io,
    {
        let runner = if host_is_linux {
            Some(String::from_str("bash"))
        } else {
            None
        };
        LaunchOptions { runner, exit_on_error: true, print_commands: true, inherit_io: true }
    }
}

} // verus!
