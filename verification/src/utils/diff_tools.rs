//! The command lines of the diff programs.

use crate::error::{DotError, ErrorKind};
use crate::utils::tree::path_views;
use vstd::prelude::*;
use vstd::string::*;

verus! {

/// Calls `which::which` and tells whether it found the program. Nothing is
/// claimed of the answer: it depends on the search path of the process and
/// on what is installed.
#[verifier::external_body]
fn on_search_path(program: &str) -> (r: bool) {
    which::which(program).is_ok()
}

/// The command line of a diff program: the program, then the flag if there
/// is one, then the two files.
pub open spec fn command_line(
    program: Seq<char>,
    flag: Option<Seq<char>>,
    file1: Seq<char>,
    file2: Seq<char>,
) -> (Seq<char>, Seq<Seq<char>>) {
    match flag {
        Some(f) => (program, seq![f, file1, file2]),
        None => (program, seq![file1, file2]),
    }
}

/// A command as plain sequences.
pub open spec fn command_view(c: (String, Vec<String>)) -> (Seq<char>, Seq<Seq<char>>) {
    (c.0@, path_views(c.1@))
}

/// The command line of `program`, which was looked for and was or was not
/// found.
pub fn tool_command(found: bool, program: &str, flag: Option<&str>, file1: &str, file2: &str) -> (r:
    Result<(String, Vec<String>), DotError>)
    ensures
        match r {
            Ok(c) => found && command_view(c) == command_line(
                program@,
                match flag {
                    Some(f) => Some(f@),
                    None => None,
                },
                file1@,
                file2@,
            ),
            Err(e) => !found && e.kind() == ErrorKind::CommandNotFound && e.spec_subject()
                == program@,
        },
{
    if !found {
        return Err(DotError::CommandNotFound(String::from_str(program)));
    }
    let mut args: Vec<String> = Vec::new();
    if let Some(f) = flag {
        args.push(String::from_str(f));
    }
    args.push(String::from_str(file1));
    args.push(String::from_str(file2));
    let c = (String::from_str(program), args);
    proof {
        assert(command_view(c).1 =~= command_line(
            program@,
            match flag {
                Some(f) => Some(f@),
                None => None,
            },
            file1@,
            file2@,
        ).1);
    }
    Ok(c)
}

/// Refuses a program that is not installed. Whether it is depends on the
/// machine.
pub fn check_command_exists(cmd: &str) -> (r: Result<(), DotError>)
    ensures
        r matches Err(e) ==> e.kind() == ErrorKind::CommandNotFound && e.spec_subject() == cmd@,
{
    command_check(on_search_path(cmd), cmd)
}

/// What the search for a program means: a program that was found is
/// accepted, and one that was not is refused under its name.
pub fn command_check(found: bool, cmd: &str) -> (r: Result<(), DotError>)
    ensures
        match r {
            Ok(_) => found,
            Err(e) => !found && e.kind() == ErrorKind::CommandNotFound && e.spec_subject() == cmd@,
        },
{
    if found {
        Ok(())
    } else {
        Err(DotError::CommandNotFound(String::from_str(cmd)))
    }
}

/// The command line `vim -d file1 file2`, if `vim` is installed.
pub fn vimdiff_command(file1: &str, file2: &str) -> (r: Result<(String, Vec<String>), DotError>)
    ensures
        match r {
            Ok(c) => command_view(c) == command_line("vim"@, Some("-d"@), file1@, file2@),
            Err(e) => e.kind() == ErrorKind::CommandNotFound && e.spec_subject() == "vim"@,
        },
{
    tool_command(on_search_path("vim"), "vim", Some("-d"), file1, file2)
}

/// The command line `meld file1 file2`, if `meld` is installed.
pub fn meld_command(file1: &str, file2: &str) -> (r: Result<(String, Vec<String>), DotError>)
    ensures
        match r {
            Ok(c) => command_view(c) == command_line("meld"@, None, file1@, file2@),
            Err(e) => e.kind() == ErrorKind::CommandNotFound && e.spec_subject() == "meld"@,
        },
{
    tool_command(on_search_path("meld"), "meld", None, file1, file2)
}

/// The command line `kdiff3 file1 file2`, if `kdiff3` is installed.
pub fn kdiff3_command(file1: &str, file2: &str) -> (r: Result<(String, Vec<String>), DotError>)
    ensures
        match r {
            Ok(c) => command_view(c) == command_line("kdiff3"@, None, file1@, file2@),
            Err(e) => e.kind() == ErrorKind::CommandNotFound && e.spec_subject() == "kdiff3"@,
        },
{
    tool_command(on_search_path("kdiff3"), "kdiff3", None, file1, file2)
}

/// The command line of the editor, given which of its two programs were
/// found: `code` comes before `codium`.
pub fn vscode_command_for(code_found: bool, codium_found: bool, file1: &str, file2: &str) -> (r:
    Result<(String, Vec<String>), DotError>)
    ensures
        match r {
            Ok(c) => (code_found || codium_found) && command_view(c) == command_line(
                if code_found {
                    "code"@
                } else {
                    "codium"@
                },
                Some("--diff"@),
                file1@,
                file2@,
            ),
            Err(e) => !code_found && !codium_found && e.kind() == ErrorKind::CommandNotFound
                && e.spec_subject() == "code"@,
        },
{
    if code_found {
        tool_command(true, "code", Some("--diff"), file1, file2)
    } else if codium_found {
        tool_command(true, "codium", Some("--diff"), file1, file2)
    } else {
        tool_command(false, "code", Some("--diff"), file1, file2)
    }
}

/// The command line `code --diff file1 file2`, or the same with `codium`,
/// if one of the two is installed.
pub fn vscode_command(file1: &str, file2: &str) -> (r: Result<(String, Vec<String>), DotError>)
    ensures
        match r {
            Ok(c) => command_view(c) == command_line("code"@, Some("--diff"@), file1@, file2@)
                || command_view(c) == command_line("codium"@, Some("--diff"@), file1@, file2@),
            Err(e) => e.kind() == ErrorKind::CommandNotFound && e.spec_subject() == "code"@,
        },
{
    let code_found = on_search_path("code");
    let codium_found = if code_found {
        false
    } else {
        on_search_path("codium")
    };
    vscode_command_for(code_found, codium_found, file1, file2)
}

} // verus!
