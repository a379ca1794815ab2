//! The toolchain wrapper: a service that brings a `.mise.toml` has its
//! commands run through `mise exec --`, so that they see the tool versions
//! that the file asks for.

use crate::error::Error;
use crate::text::{concat3, decimal, str_eq, u64_to_string};
use vstd::prelude::*;
use vstd::string::*;

verus! {

/// A program with its arguments.
#[derive(Debug, Clone, PartialEq, Eq)]
pub struct CommandLine {
    pub program: String,
    pub args: Vec<String>,
}

pub open spec fn mise_missing_message() -> Seq<char> {
    "mise not found. This service requires mise for toolchain management.\n\nInstall mise:\ncurl https://mise.run | sh\n\nMore info: https://mise.jdx.dev/getting-started.html"@
}

pub open spec fn empty_command_message() -> Seq<char> {
    "Empty command provided"@
}

/// An exit code as a failure report shows it.
pub open spec fn exit_code_text(code: Option<i32>) -> Seq<char> {
    match code {
        None => "None"@,
        Some(c) => if c < 0 {
            "Some(-"@ + decimal((-c) as nat) + ")"@
        } else {
            "Some("@ + decimal(c as nat) + ")"@
        },
    }
}

pub open spec fn install_failed_message(code: Option<i32>) -> Seq<char> {
    "Failed to install mise tools. Exit code: "@ + exit_code_text(code)
}

/// The toolchain descriptor is among the names.
pub open spec fn lists_mise_toml(names: Seq<String>) -> bool {
    exists|i: int| 0 <= i < names.len() && (#[trigger] names[i])@ == ".mise.toml"@
}

/// Tells whether a service brings a toolchain descriptor, from the names of
/// the files in its directory.
pub fn has_mise_toml(names: &Vec<String>) -> (r: bool)
    ensures
        r == lists_mise_toml(names@),
{
    let mut i: usize = 0;
    while i < names.len()
        invariant
            i <= names.len(),
            forall|j: int| 0 <= j < i ==> (#[trigger] names@[j])@ != ".mise.toml"@,
        decreases names.len() - i,
    {
        if str_eq(names[i].as_str(), ".mise.toml") {
            return true;
        }
        i += 1;
    }
    false
}

/// Turns the answer to "is mise installed" into a failure that says how to
/// install it.
pub fn check_mise_installed(installed: bool) -> (r: Result<(), Error>)
    ensures
        installed ==> r is Ok,
        !installed ==> (r matches Err(Error::Other(m)) && m@ == mise_missing_message()),
{
    if !installed {
        return Err(
            Error::Other(
                String::from_str(
                    "mise not found. This service requires mise for toolchain management.\n\nInstall mise:\ncurl https://mise.run | sh\n\nMore info: https://mise.jdx.dev/getting-started.html",
                ),
            ),
        );
    }
    Ok(())
}

/// Decides what installs the tools of a service before it runs: nothing
/// without a toolchain descriptor, else `mise install`, which needs mise.
pub fn install_tools(has_descriptor: bool, mise_installed: bool) -> (r: Result<
    Option<CommandLine>,
    Error,
>)
    ensures
        !has_descriptor ==> r matches Ok(None),
        has_descriptor && !mise_installed ==> (r matches Err(Error::Other(m)) && m@
            == mise_missing_message()),
        has_descriptor && mise_installed ==> (r matches Ok(Some(c)) && c.program@ == "mise"@
            && c.args@.len() == 1 && c.args@[0]@ == "install"@),
{
    if !has_descriptor {
        return Ok(None);
    }
    match check_mise_installed(mise_installed) {
        Err(e) => Err(e),
        Ok(_) => {
            let mut args: Vec<String> = Vec::new();
            args.push(String::from_str("install"));
            Ok(Some(CommandLine { program: String::from_str("mise"), args }))
        },
    }
}

/// Renders an exit code for a failure report.
pub fn exit_code_string(code: Option<i32>) -> (r: String)
    ensures
        r@ == exit_code_text(code),
{
    match code {
        None => String::from_str("None"),
        Some(c) => {
            if c < 0 {
                let wide: i64 = c as i64;
                let digits = u64_to_string((0 - wide) as u64);
                concat3("Some(-", digits.as_str(), ")")
            } else {
                let digits = u64_to_string(c as u64);
                concat3("Some(", digits.as_str(), ")")
            }
        },
    }
}

/// Judges how the installation of the tools ended.
pub fn install_tools_finished(success: bool, code: Option<i32>) -> (r: Result<(), Error>)
    ensures
        success ==> r is Ok,
        !success ==> (r matches Err(Error::Other(m)) && m@ == install_failed_message(code)),
{
    if success {
        Ok(())
    } else {
        let shown = exit_code_string(code);
        let mut m = String::from_str("Failed to install mise tools. Exit code: ");
        m.append(shown.as_str());
        Err(Error::Other(m))
    }
}

/// What runs `command` through mise: `mise exec --` before the command.
pub open spec fn wrapped_args(command: Seq<String>, args: Seq<String>) -> bool {
    &&& args.len() == command.len() + 2
    &&& args[0]@ == "exec"@
    &&& args[1]@ == "--"@
    &&& args.subrange(2, args.len() as int) == command
}

/// What `build_command` owes for a command: an empty one is refused; with a
/// toolchain descriptor the command runs through mise, which must be
/// installed; without one it runs as it is.
pub open spec fn build_command_post(
    command: Seq<String>,
    has_descriptor: bool,
    mise_installed: bool,
    r: Result<CommandLine, Error>,
) -> bool {
    &&& command.len() == 0 ==> (r matches Err(Error::Other(m)) && m@ == empty_command_message())
    &&& command.len() > 0 && has_descriptor && !mise_installed ==> (r matches Err(Error::Other(m))
        && m@ == mise_missing_message())
    &&& command.len() > 0 && has_descriptor && mise_installed ==> (r matches Ok(c) && c.program@
        == "mise"@ && wrapped_args(command, c.args@))
    &&& command.len() > 0 && !has_descriptor ==> (r matches Ok(c) && c.program == command[0]
        && c.args@ == command.subrange(1, command.len() as int))
}

/// Builds the command line that runs a service's command. An empty command
/// is refused. With a toolchain descriptor the command runs through mise,
/// which must be installed; without one it runs as it is.
pub fn build_command(command: &Vec<String>, has_descriptor: bool, mise_installed: bool) -> (r:
    Result<CommandLine, Error>)
    ensures
        build_command_post(command@, has_descriptor, mise_installed, r),
{
    if command.len() == 0 {
        return Err(Error::Other(String::from_str("Empty command provided")));
    }
    if has_descriptor {
        match check_mise_installed(mise_installed) {
            Err(e) => Err(e),
            Ok(_) => {
                let mut args: Vec<String> = Vec::new();
                args.push(String::from_str("exec"));
                args.push(String::from_str("--"));
                let mut i: usize = 0;
                while i < command.len()
                    invariant
                        i <= command.len(),
                        args@.len() == i + 2,
                        args@[0]@ == "exec"@,
                        args@[1]@ == "--"@,
                        args@.subrange(2, args@.len() as int) == command@.subrange(0, i as int),
                    decreases command.len() - i,
                {
                    args.push(command[i].clone());
                    assert(args@.subrange(2, args@.len() as int) =~= command@.subrange(
                        0,
                        i + 1,
                    ));
                    i += 1;
                }
                assert(command@.subrange(0, i as int) =~= command@);
                Ok(CommandLine { program: String::from_str("mise"), args })
            },
        }
    } else {
        let mut args: Vec<String> = Vec::new();
        let mut i: usize = 1;
        while i < command.len()
            invariant
                1 <= i <= command.len(),
                args@ == command@.subrange(1, i as int),
            decreases command.len() - i,
        {
            args.push(command[i].clone());
            assert(args@ =~= command@.subrange(1, i + 1));
            i += 1;
        }
        Ok(CommandLine { program: command[0].clone(), args })
    }
}

} // verus!
