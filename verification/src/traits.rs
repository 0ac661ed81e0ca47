//! Workspaces, and the values that a workspace takes and gives.

use vstd::prelude::*;

use crate::text::concat2;

verus! {

/// A query used to search a workspace.
#[derive(Debug)]
pub struct SearchQuery {
    /// The text to search for.
    pub pattern: String,
    /// Restricts the search to files at or below this path.
    pub path_prefix: Option<String>,
    /// Caps the number of matches.
    pub max_results: Option<usize>,
}

/// A single match of a search.
#[derive(Debug)]
pub struct SearchMatch {
    /// The file that contains the match.
    pub path: String,
    /// The line of the match, counted from one.
    pub line: u64,
    /// The beginning of the line.
    pub preview: String,
}

/// The result of a search.
#[derive(Debug)]
pub struct SearchResult {
    pub matches: Vec<SearchMatch>,
}

/// The status of a workspace.
#[derive(Debug)]
pub struct WorkspaceStatus {
    /// The workspace root, if there is one.
    pub root: Option<String>,
    /// The number of files.
    pub file_count: usize,
    /// Whether writes are permitted.
    pub is_writable: bool,
}

/// Errors of workspace operations.
#[derive(Debug)]
pub enum WorkspaceError {
    /// The path does not exist.
    NotFound(String),
    /// The workspace policy forbids the operation.
    PermissionDenied(String),
    /// An I/O error.
    Io(String),
}

impl WorkspaceError {
    /// The message shown to a caller.
    pub open spec fn message_view(self) -> Seq<char> {
        match self {
            WorkspaceError::NotFound(path) => "path not found: "@ + path@,
            WorkspaceError::PermissionDenied(path) => "permission denied: "@ + path@,
            WorkspaceError::Io(error) => "workspace I/O error: "@ + error@,
        }
    }

    /// The message shown to a caller.
    pub fn message(&self) -> (r: String)
        ensures
            r@ == self.message_view(),
    {
        match self {
            WorkspaceError::NotFound(path) => concat2("path not found: ", path.as_str()),
            WorkspaceError::PermissionDenied(path) => concat2("permission denied: ", path.as_str()),
            WorkspaceError::Io(error) => concat2("workspace I/O error: ", error.as_str()),
        }
    }
}

/// An abstract project environment. Agents reach files through it only, so
/// that the same agent runs against a file system, unsaved buffers, a
/// snapshot, or memory.
pub trait Workspace {
    /// Whether the workspace is in a state that its operations keep.
    spec fn valid(&self) -> bool;

    /// Reads a file.
    fn read(&self, path: &str) -> Result<Vec<u8>, WorkspaceError>
        requires
            self.valid(),
    ;

    /// Writes a file, creating or overwriting it.
    fn write(&mut self, path: &str, data: Vec<u8>) -> (r: Result<(), WorkspaceError>)
        requires
            old(self).valid(),
        ensures
            final(self).valid(),
    ;

    /// Searches the files.
    fn search(&self, query: &SearchQuery) -> Result<SearchResult, WorkspaceError>
        requires
            self.valid(),
    ;

    /// Reports the status.
    fn status(&self) -> Result<WorkspaceStatus, WorkspaceError>
        requires
            self.valid(),
    ;
}

} // verus!
