//! How a worker is to be started.

use vstd::prelude::*;
use vstd::string::StringExecFns;

verus! {

/// How a worker is to be started.
#[derive(Debug)]
pub struct DenoWorkerOptions {
    /// The command that starts the runtime, followed by the arguments that
    /// come before everything the worker adds.
    pub deno_executable: Vec<String>,
    /// The path of the script with which the runtime is started, and which
    /// binds the socket and runs the caller's code.
    pub deno_bootstrap_script_path: String,
    /// The caller's flags for the runtime.
    pub run_flags: Vec<String>,
    /// Whether the output of the runtime is passed on, line by line.
    pub print_output: bool,
    /// Whether the command line is printed before the runtime is started.
    pub print_command_and_arguments: bool,
}

impl DenoWorkerOptions {
    /// The options name a command to run.
    pub open spec fn names_command(&self) -> bool {
        self.deno_executable@.len() > 0
    }
}

impl Default for DenoWorkerOptions {
    /// The runtime is `deno`, the bootstrap script is looked for beside the
    /// working directory, the caller adds no flag, and nothing is printed.
    fn default() -> (options: DenoWorkerOptions)
        ensures
            options.deno_executable@.len() == 1,
            options.deno_executable@[0]@ == "deno"@,
            options.deno_bootstrap_script_path@ == "../deno-bootstrap/index.ts"@,
            options.run_flags@.len() == 0,
            !options.print_output,
            !options.print_command_and_arguments,
    {
        let mut deno_executable: Vec<String> = Vec::new();
        deno_executable.push(String::from_str("deno"));
        DenoWorkerOptions {
            deno_executable,
            deno_bootstrap_script_path: String::from_str("../deno-bootstrap/index.ts"),
            run_flags: Vec::new(),
            print_output: false,
            print_command_and_arguments: false,
        }
    }
}

} // verus!
