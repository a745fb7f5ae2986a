//! Virtual paths, versioned records and the errors of virtual filesystem operations.

use vstd::prelude::*;

use crate::text::{owned, push_str};

verus! {

/// Whether `s` is a well-formed virtual path: `/`, or `/` followed by one or more
/// `/`-separated names, each non-empty and neither `.` nor `..`.
pub open spec fn is_virtual_path(s: Seq<char>) -> bool {
    &&& s.len() > 0
    &&& s[0] == '/'
    &&& s.len() > 1 ==> s.last() != '/'
    &&& forall|i: int| 0 <= i < s.len() - 1 ==> !(s[i] == '/' && #[trigger] s[i + 1] == '/')
    &&& forall|i: int|
        0 <= i < s.len() - 1 ==> !(s[i] == '/' && #[trigger] s[i + 1] == '.' && (i + 2 == s.len()
            || s[i + 2] == '/'))
    &&& forall|i: int|
        0 <= i < s.len() - 2 ==> !(s[i] == '/' && #[trigger] s[i + 1] == '.' && s[i + 2] == '.' && (
        i + 3 == s.len() || s[i + 3] == '/'))
}

/// A virtual path failed validation.
#[derive(Debug, Clone, Copy, PartialEq, Eq, Structural)]
pub struct VirtualPathError;

/// An agent-visible absolute path; it never names a host location.
#[derive(Debug)]
pub struct VirtualPath {
    text: String,
}

impl View for VirtualPath {
    type V = Seq<char>;

    closed spec fn view(&self) -> Seq<char> {
        self.text@
    }
}

impl VirtualPath {
    /// Well-formedness of the path text.
    pub closed spec fn wf(&self) -> bool {
        is_virtual_path(self.text@)
    }

    /// Validates `text` as a virtual path.
    pub fn parse(text: &str) -> (r: Result<VirtualPath, VirtualPathError>)
        ensures
            match r {
                Ok(p) => p@ == text@ && p.wf() && is_virtual_path(p@),
                Err(_) => !is_virtual_path(text@),
            },
    {
        let chars = crate::text::chars_of(text);
        let n = chars.len();
        if n == 0 || chars[0] != '/' {
            return Err(VirtualPathError);
        }
        if n > 1 && chars[n - 1] == '/' {
            return Err(VirtualPathError);
        }
        let mut i: usize = 0;
        while i < n - 1
            invariant
                n >= 1,
                n == chars@.len(),
                chars@ == text@,
                forall|k: int| 0 <= k < i ==> !(chars@[k] == '/' && #[trigger] chars@[k + 1] == '/'),
                forall|k: int|
                    0 <= k < i ==> !(chars@[k] == '/' && #[trigger] chars@[k + 1] == '.' && (k + 2
                        == n || chars@[k + 2] == '/')),
                forall|k: int|
                    0 <= k < i && k < n - 2 ==> !(chars@[k] == '/' && #[trigger] chars@[k + 1] == '.'
                        && chars@[k + 2] == '.' && (k + 3 == n || chars@[k + 3] == '/')),
            decreases n - i,
        {
            if chars[i] == '/' {
                let next = chars[i + 1];
                if next == '/' {
                    return Err(VirtualPathError);
                }
                if next == '.' {
                    if i + 2 == n || chars[i + 2] == '/' {
                        return Err(VirtualPathError);
                    }
                    if chars[i + 2] == '.' && (i + 3 == n || chars[i + 3] == '/') {
                        return Err(VirtualPathError);
                    }
                }
            }
            i = i + 1;
        }
        Ok(VirtualPath { text: owned(text) })
    }

    /// The path text.
    pub fn as_str(&self) -> (r: &str)
        ensures
            r@ == self@,
    {
        self.text.as_str()
    }

    /// A copy of this path.
    pub fn duplicate(&self) -> (r: VirtualPath)
        ensures
            r@ == self@,
            self.wf() ==> r.wf(),
    {
        VirtualPath { text: self.text.clone() }
    }

    /// Whether two paths name the same location.
    pub fn same_as(&self, other: &VirtualPath) -> (r: bool)
        ensures
            r == (self@ == other@),
    {
        crate::text::same_text(self.text.as_str(), other.text.as_str())
    }
}

/// Kind of a local input/output failure, as far as the virtual filesystem tells them apart.
#[derive(Debug, Clone, Copy, PartialEq, Eq, Structural)]
pub enum IoFailureKind {
    /// The entity does not exist.
    NotFound,
    /// The entity already exists.
    AlreadyExists,
    /// The operating system denied the operation.
    PermissionDenied,
    /// The directory is not empty.
    DirectoryNotEmpty,
    /// Any other failure.
    Other,
}

/// Error returned by virtual filesystem operations.
#[derive(Debug)]
pub enum FilesystemError {
    /// The backend does not provide compare-and-swap operations.
    UnsupportedCas,
    /// A compare-and-swap expectation did not match the current record version.
    VersionMismatch { path: VirtualPath },
    /// A backend cannot assign another record version.
    VersionOverflow { path: VirtualPath },
    /// The local compare-and-swap record state lock was poisoned.
    RecordStatePoisoned,
    /// A virtual path failed validation.
    InvalidVirtualPath { path: String, source: VirtualPathError },
    /// Path resolution would escape the sandbox.
    PathEscapesSandbox { path: VirtualPath },
    /// The requested path does not exist.
    NotFound { path: VirtualPath },
    /// The requested path already exists.
    AlreadyExists { path: VirtualPath },
    /// The path is not a file.
    NotAFile { path: VirtualPath },
    /// The path is not a directory.
    NotADirectory { path: VirtualPath },
    /// The directory is not empty.
    DirectoryNotEmpty { path: VirtualPath },
    /// Operation was denied by the operating system.
    PermissionDenied { path: VirtualPath },
    /// Content exceeds the configured size limit.
    ContentTooLarge { path: VirtualPath },
    /// Local filesystem operation failed.
    LocalIo { operation: &'static str, path: VirtualPath, kind: IoFailureKind },
}

/// The description of a filesystem failure; it names virtual paths only.
pub open spec fn filesystem_error_text(e: FilesystemError) -> Seq<char> {
    match e {
        FilesystemError::UnsupportedCas => "filesystem backend does not support compare-and-swap"@,
        FilesystemError::VersionMismatch { path } => "record version mismatch "@ + path@,
        FilesystemError::VersionOverflow { path } => "record version overflow "@ + path@,
        FilesystemError::RecordStatePoisoned => "local filesystem record state lock poisoned"@,
        FilesystemError::InvalidVirtualPath { path, .. } => "invalid virtual path "@ + path@,
        FilesystemError::PathEscapesSandbox { path } => "path escapes sandbox "@ + path@,
        FilesystemError::NotFound { path } => "path not found "@ + path@,
        FilesystemError::AlreadyExists { path } => "path already exists "@ + path@,
        FilesystemError::NotAFile { path } => "path is not a file "@ + path@,
        FilesystemError::NotADirectory { path } => "path is not a directory "@ + path@,
        FilesystemError::DirectoryNotEmpty { path } => "directory is not empty "@ + path@,
        FilesystemError::PermissionDenied { path } => "permission denied "@ + path@,
        FilesystemError::ContentTooLarge { path } => "content too large "@ + path@,
        FilesystemError::LocalIo { operation, path, .. } => "local filesystem operation failed "@
            + operation@ + " "@ + path@,
    }
}

impl FilesystemError {
    /// A rejected path text with its validation failure.
    pub fn invalid_virtual_path(path: &str, source: VirtualPathError) -> (r: FilesystemError)
        ensures
            r matches FilesystemError::InvalidVirtualPath { path: p, source: s } && p@ == path@ && s
                == source,
    {
        FilesystemError::InvalidVirtualPath { path: owned(path), source }
    }

    /// Classifies a local input/output failure: the kinds with a variant of their own get it.
    pub fn local_io(operation: &'static str, path: VirtualPath, kind: IoFailureKind) -> (r: FilesystemError)
        ensures
            kind == IoFailureKind::NotFound ==> r == (FilesystemError::NotFound { path }),
            kind == IoFailureKind::AlreadyExists ==> r == (FilesystemError::AlreadyExists { path }),
            kind == IoFailureKind::PermissionDenied ==> r == (FilesystemError::PermissionDenied { path }),
            kind == IoFailureKind::DirectoryNotEmpty ==> r == (FilesystemError::DirectoryNotEmpty { path }),
            kind == IoFailureKind::Other ==> r == (FilesystemError::LocalIo { operation, path, kind }),
    {
        match kind {
            IoFailureKind::NotFound => FilesystemError::NotFound { path },
            IoFailureKind::AlreadyExists => FilesystemError::AlreadyExists { path },
            IoFailureKind::PermissionDenied => FilesystemError::PermissionDenied { path },
            IoFailureKind::DirectoryNotEmpty => FilesystemError::DirectoryNotEmpty { path },
            IoFailureKind::Other => FilesystemError::LocalIo { operation, path, kind },
        }
    }

    /// The human-readable description of this failure.
    pub fn text(&self) -> (r: String)
        ensures
            r@ == filesystem_error_text(*self),
    {
        let mut r = String::new();
        match self {
            FilesystemError::UnsupportedCas => push_str(
                &mut r,
                "filesystem backend does not support compare-and-swap",
            ),
            FilesystemError::VersionMismatch { path } => {
                push_str(&mut r, "record version mismatch ");
                push_str(&mut r, path.as_str());
            },
            FilesystemError::VersionOverflow { path } => {
                push_str(&mut r, "record version overflow ");
                push_str(&mut r, path.as_str());
            },
            FilesystemError::RecordStatePoisoned => push_str(
                &mut r,
                "local filesystem record state lock poisoned",
            ),
            FilesystemError::InvalidVirtualPath { path, .. } => {
                push_str(&mut r, "invalid virtual path ");
                push_str(&mut r, path.as_str());
            },
            FilesystemError::PathEscapesSandbox { path } => {
                push_str(&mut r, "path escapes sandbox ");
                push_str(&mut r, path.as_str());
            },
            FilesystemError::NotFound { path } => {
                push_str(&mut r, "path not found ");
                push_str(&mut r, path.as_str());
            },
            FilesystemError::AlreadyExists { path } => {
                push_str(&mut r, "path already exists ");
                push_str(&mut r, path.as_str());
            },
            FilesystemError::NotAFile { path } => {
                push_str(&mut r, "path is not a file ");
                push_str(&mut r, path.as_str());
            },
            FilesystemError::NotADirectory { path } => {
                push_str(&mut r, "path is not a directory ");
                push_str(&mut r, path.as_str());
            },
            FilesystemError::DirectoryNotEmpty { path } => {
                push_str(&mut r, "directory is not empty ");
                push_str(&mut r, path.as_str());
            },
            FilesystemError::PermissionDenied { path } => {
                push_str(&mut r, "permission denied ");
                push_str(&mut r, path.as_str());
            },
            FilesystemError::ContentTooLarge { path } => {
                push_str(&mut r, "content too large ");
                push_str(&mut r, path.as_str());
            },
            FilesystemError::LocalIo { operation, path, .. } => {
                push_str(&mut r, "local filesystem operation failed ");
                push_str(&mut r, operation);
                push_str(&mut r, " ");
                push_str(&mut r, path.as_str());
            },
        }
        r
    }
}

/// Complete contents of one filesystem record.
#[derive(Debug)]
pub struct Entry {
    contents: Vec<u8>,
}

impl View for Entry {
    type V = Seq<u8>;

    closed spec fn view(&self) -> Seq<u8> {
        self.contents@
    }
}

impl Entry {
    /// Creates a record entry from its complete contents.
    pub fn new(contents: Vec<u8>) -> (r: Entry)
        ensures
            r@ == contents@,
    {
        Entry { contents }
    }

    /// Returns the complete record contents.
    pub fn contents(&self) -> (r: &[u8])
        ensures
            r@ == self@,
    {
        self.contents.as_slice()
    }

    /// Consumes the entry and returns its complete contents.
    pub fn into_contents(self) -> (r: Vec<u8>)
        ensures
            r@ == self@,
    {
        self.contents
    }
}

/// Opaque version assigned by a filesystem backend.
#[derive(Debug, Clone, Copy, PartialEq, Eq, Structural)]
pub struct RecordVersion(u64);

impl RecordVersion {
    /// The backend value of this version.
    pub closed spec fn value(&self) -> u64 {
        self.0
    }

    /// Creates a version from a backend-specific monotonic value.
    pub fn from_backend(value: u64) -> (r: RecordVersion)
        ensures
            r.value() == value,
    {
        RecordVersion(value)
    }
}

/// Condition required for a record write.
#[derive(Debug, Clone, Copy, PartialEq, Eq, Structural)]
pub enum CasExpectation {
    /// The record must not exist.
    Absent,
    /// The record must have the given version.
    Version(RecordVersion),
    /// No version condition is required.
    Any,
}

/// Record contents paired with their backend-assigned version.
#[derive(Debug)]
pub struct VersionedEntry {
    /// Record contents.
    pub entry: Entry,
    /// Backend-assigned record version.
    pub version: RecordVersion,
}

} // verus!
