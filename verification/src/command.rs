//! The fixed command triple used to launch the language server.

use vstd::prelude::*;

verus! {

/// The command, arguments and environment the host uses to launch the
/// language server.
pub struct LaunchCommand {
    pub command: String,
    pub args: Vec<String>,
    pub env: Vec<(String, String)>,
}

/// Builds the launch command for the language server: the bundled Java
/// runtime, told to run the resolved jar, with an empty environment.
pub fn language_server_command(jar_path: String) -> (c: LaunchCommand)
    ensures
        c.command@ == "./bin/java"@,
        c.args@.len() == 2,
        c.args@[0]@ == "-jar"@,
        c.args@[1] == jar_path,
        c.env@.len() == 0,
{
    let command: String = "./bin/java".to_owned();
    let mut args: Vec<String> = Vec::new();
    args.push("-jar".to_owned());
    args.push(jar_path);
    LaunchCommand { command, args, env: Vec::new() }
}

} // verus!
