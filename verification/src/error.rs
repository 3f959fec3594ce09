//! The failures that the library reports.

use crate::text::concat_str;
use vstd::prelude::*;
use vstd::string::*;

verus! {

/// Why an operation was refused.
#[derive(Debug, PartialEq, Eq)]
pub enum DotError {
    /// The live file or directory that should be copied does not exist.
    SourceNotFound(String),
    /// The repository holds no manifest.
    RepositoryNotFound(String),
    /// The manifest holds no entry under this name.
    NoSuchDotfile(String),
    /// The diff tool asked for is not one the library knows.
    UnsupportedTool(String),
    /// The program of a diff tool is not installed.
    CommandNotFound(String),
    /// A diff tool ended with a failure status.
    ToolFailed(String),
    /// A path that should be read does not exist.
    Unreadable(String),
    /// Nothing is staged, so nothing can be committed.
    NothingToCommit,
    /// A change to the filesystem failed; the text names the change with
    /// its paths, and the reason.
    Io(String),
}

/// What an error says, without the text it carries.
#[derive(Debug, Clone, Copy, PartialEq, Eq, Structural)]
pub enum ErrorKind {
    SourceNotFound,
    RepositoryNotFound,
    NoSuchDotfile,
    UnsupportedTool,
    CommandNotFound,
    ToolFailed,
    Unreadable,
    NothingToCommit,
    Io,
}

impl DotError {
    /// The kind of the error.
    pub open spec fn spec_kind(&self) -> ErrorKind {
        match self {
            DotError::SourceNotFound(_) => ErrorKind::SourceNotFound,
            DotError::RepositoryNotFound(_) => ErrorKind::RepositoryNotFound,
            DotError::NoSuchDotfile(_) => ErrorKind::NoSuchDotfile,
            DotError::UnsupportedTool(_) => ErrorKind::UnsupportedTool,
            DotError::CommandNotFound(_) => ErrorKind::CommandNotFound,
            DotError::ToolFailed(_) => ErrorKind::ToolFailed,
            DotError::Unreadable(_) => ErrorKind::Unreadable,
            DotError::NothingToCommit => ErrorKind::NothingToCommit,
            DotError::Io(_) => ErrorKind::Io,
        }
    }

    /// The path, name or tool that the error is about; empty where it has none.
    pub open spec fn spec_subject(&self) -> Seq<char> {
        match self {
            DotError::SourceNotFound(s) => s@,
            DotError::RepositoryNotFound(s) => s@,
            DotError::NoSuchDotfile(s) => s@,
            DotError::UnsupportedTool(s) => s@,
            DotError::CommandNotFound(s) => s@,
            DotError::ToolFailed(s) => s@,
            DotError::Unreadable(s) => s@,
            DotError::NothingToCommit => Seq::empty(),
            DotError::Io(s) => s@,
        }
    }

    /// What the error says to the user.
    pub open spec fn spec_describe(&self) -> Seq<char> {
        match self {
            DotError::SourceNotFound(s) => "Dotfile does not exist: "@ + s@,
            DotError::RepositoryNotFound(s) => "No dotzilla repository found, please run 'dotzilla init': "@
                + s@,
            DotError::NoSuchDotfile(s) => "No such dotfile: "@ + s@,
            DotError::UnsupportedTool(s) => "Unsupported diff tool: "@ + s@,
            DotError::CommandNotFound(s) => "Command not found in PATH: "@ + s@,
            DotError::ToolFailed(s) => "Diff tool process exited with non-zero status: "@ + s@,
            DotError::Unreadable(s) => "Nothing to compare at: "@ + s@,
            DotError::NothingToCommit => "No dotfiles staged for commit. Use 'dotzilla stage <name>' to stage dotfiles."@,
            DotError::Io(s) => "Failed to "@ + s@,
        }
    }

    /// What the error says to the user.
    pub fn describe(&self) -> (r: String)
        ensures
            r@ == self.spec_describe(),
    {
        match self {
            DotError::SourceNotFound(s) => concat_str("Dotfile does not exist: ", s.as_str()),
            DotError::RepositoryNotFound(s) => concat_str(
                "No dotzilla repository found, please run 'dotzilla init': ",
                s.as_str(),
            ),
            DotError::NoSuchDotfile(s) => concat_str("No such dotfile: ", s.as_str()),
            DotError::UnsupportedTool(s) => concat_str("Unsupported diff tool: ", s.as_str()),
            DotError::CommandNotFound(s) => concat_str("Command not found in PATH: ", s.as_str()),
            DotError::ToolFailed(s) => concat_str(
                "Diff tool process exited with non-zero status: ",
                s.as_str(),
            ),
            DotError::Unreadable(s) => concat_str("Nothing to compare at: ", s.as_str()),
            DotError::NothingToCommit => String::from_str(
                "No dotfiles staged for commit. Use 'dotzilla stage <name>' to stage dotfiles.",
            ),
            DotError::Io(s) => concat_str("Failed to ", s.as_str()),
        }
    }

    /// The kind of the error.
    #[verifier::when_used_as_spec(spec_kind)]
    pub fn kind(&self) -> (r: ErrorKind)
        ensures
            r == self.spec_kind(),
    {
        match self {
            DotError::SourceNotFound(_) => ErrorKind::SourceNotFound,
            DotError::RepositoryNotFound(_) => ErrorKind::RepositoryNotFound,
            DotError::NoSuchDotfile(_) => ErrorKind::NoSuchDotfile,
            DotError::UnsupportedTool(_) => ErrorKind::UnsupportedTool,
            DotError::CommandNotFound(_) => ErrorKind::CommandNotFound,
            DotError::ToolFailed(_) => ErrorKind::ToolFailed,
            DotError::Unreadable(_) => ErrorKind::Unreadable,
            DotError::NothingToCommit => ErrorKind::NothingToCommit,
            DotError::Io(_) => ErrorKind::Io,
        }
    }
}

} // verus!
