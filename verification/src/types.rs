use vstd::prelude::*;

verus! {

/// A target position for a file cursor: absolute from the start, relative to
/// the end, or relative to the current position.
#[derive(Clone, Copy, PartialEq, Eq, Structural, Debug)]
pub enum SeekFrom {
    Start(u64),
    End(i64),
    Current(i64),
}

/// The failure classes a primitive file operation can surface. The layer
/// defines no categories of its own; these mirror the provider's taxonomy.
#[derive(Clone, Copy, PartialEq, Eq, Structural, Debug)]
pub enum ErrorKind {
    NotFound,
    PermissionDenied,
    AlreadyExists,
    InvalidInput,
    WouldBlock,
    Other,
}

/// The operating system's error value, carried through opaquely so a failure
/// reaches the caller with whatever diagnostic detail the provider attached.
#[verifier::external_type_specification]
#[verifier::external_body]
pub struct ExIoError(std::io::Error);

/// A failure reported by a primitive file operation, passed through verbatim:
/// a classification plus, for failures of the real file provider, the
/// provider's own error value.
#[derive(Debug)]
pub struct Error {
    pub kind: ErrorKind,
    pub io: Option<std::io::Error>,
}

/// The outcome of one non-blocking attempt to advance an operation: done with
/// a value, not yet complete (the caller must poll again later), or failed.
#[derive(Debug)]
pub enum Poll<T> {
    Ready(T),
    NotReady,
    Failed(Error),
}

/// A snapshot of the queryable state of an open file.
#[derive(Clone, Copy, PartialEq, Eq, Structural, Debug)]
pub struct Metadata {
    pub len: u64,
    pub readonly: bool,
}

/// A permission set for a file: here, whether the file is read-only.
#[derive(Clone, Copy, PartialEq, Eq, Structural, Debug)]
pub struct Permissions {
    pub readonly: bool,
}

impl Metadata {
    /// The file's length in bytes at the time of the snapshot.
    pub fn len(&self) -> (n: u64)
        ensures
            n == self.len,
    {
        self.len
    }

    /// The file's permission set at the time of the snapshot.
    pub fn permissions(&self) -> (p: Permissions)
        ensures
            p == (Permissions { readonly: self.readonly }),
    {
        Permissions { readonly: self.readonly }
    }
}

impl Permissions {
    /// Whether this permission set marks the file read-only.
    pub fn readonly(&self) -> (b: bool)
        ensures
            b == self.readonly,
    {
        self.readonly
    }

    /// Mark the permission set read-only or writable.
    pub fn set_readonly(&mut self, readonly: bool)
        ensures
            *final(self) == (Permissions { readonly }),
    {
        self.readonly = readonly;
    }
}

} // verus!
