use vstd::prelude::*;
use crate::types::{SeekFrom, Poll, Error, ErrorKind, Metadata, Permissions};

verus! {

/// The mathematical state of a modeled open file: its length, the cursor
/// position, whether it is read-only, and how many more polls it will stay
/// suspended before an operation can complete. A real operating-system file
/// has no such model; the capability interface exposes `Option<FileModel>`
/// and leaves it `None` there.
pub struct FileModel {
    pub len: u64,
    pub pos: u64,
    pub readonly: bool,
    pub pending: u64,
}

/// The same file state with no readiness delay left: what an always-ready
/// provider would hold. Suspension steps preserve this projection, which is
/// why a delayed operation eventually produces exactly the outcome an
/// immediate one would have produced.
pub open spec fn drained(m: FileModel) -> FileModel {
    FileModel { pending: 0, ..m }
}

/// One "not yet complete" attempt: a unit of readiness delay is consumed and
/// nothing else about the file changes.
pub open spec fn step_not_ready(pre: FileModel, post: FileModel) -> bool {
    &&& pre.pending > 0
    &&& post == (FileModel { pending: (pre.pending - 1) as u64, ..pre })
}

/// The absolute offset a seek request resolves to, as an unbounded integer:
/// negative or above `u64::MAX` means the request is invalid.
pub open spec fn seek_target(m: FileModel, pos: SeekFrom) -> int {
    match pos {
        SeekFrom::Start(n) => n as int,
        SeekFrom::End(d) => m.len + d,
        SeekFrom::Current(d) => m.pos + d,
    }
}

/// Whether a seek request resolves to a representable absolute offset.
pub open spec fn seek_in_range(m: FileModel, pos: SeekFrom) -> bool {
    0 <= seek_target(m, pos) <= u64::MAX
}

/// How a seek fails on a modeled file: only by resolving out of range, and
/// only once the file is ready.
pub open spec fn seek_err(pre: FileModel, pos: SeekFrom, e: Error) -> bool {
    &&& pre.pending == 0
    &&& !seek_in_range(pre, pos)
    &&& e.kind == ErrorKind::InvalidInput
}

/// One primitive seek attempt on a modeled file: ready with the resolved
/// offset and a moved cursor, suspended, or failed with the state unchanged.
pub open spec fn seek_step(pre: FileModel, post: FileModel, pos: SeekFrom, r: Poll<u64>) -> bool {
    match r {
        Poll::Ready(n) => {
            &&& pre.pending == 0
            &&& seek_in_range(pre, pos)
            &&& n == seek_target(pre, pos)
            &&& post == (FileModel { pos: n, ..pre })
        },
        Poll::NotReady => step_not_ready(pre, post),
        Poll::Failed(e) => seek_err(pre, pos, e) && post == pre,
    }
}

/// One primitive flush attempt (data only, or data and metadata) on a modeled
/// file: the model records no durability, so a completed flush changes
/// nothing and never fails.
pub open spec fn sync_step(pre: FileModel, post: FileModel, r: Poll<()>) -> bool {
    match r {
        Poll::Ready(u) => pre.pending == 0 && post == pre,
        Poll::NotReady => step_not_ready(pre, post),
        Poll::Failed(_) => false,
    }
}

/// How a length change fails on a modeled file: only because the file is
/// read-only, and only once the file is ready.
pub open spec fn set_len_err(pre: FileModel, e: Error) -> bool {
    &&& pre.pending == 0
    &&& pre.readonly
    &&& e.kind == ErrorKind::PermissionDenied
}

/// One primitive truncate-or-extend attempt on a modeled file. The cursor is
/// not moved by a length change.
pub open spec fn set_len_step(pre: FileModel, post: FileModel, size: u64, r: Poll<()>) -> bool {
    match r {
        Poll::Ready(u) => {
            &&& pre.pending == 0
            &&& !pre.readonly
            &&& post == (FileModel { len: size, ..pre })
        },
        Poll::NotReady => step_not_ready(pre, post),
        Poll::Failed(e) => set_len_err(pre, e) && post == pre,
    }
}

/// The metadata snapshot a modeled file reports.
pub open spec fn snapshot(m: FileModel) -> Metadata {
    Metadata { len: m.len, readonly: m.readonly }
}

/// One primitive metadata query on a modeled file: it reports exactly the
/// file's current length and permission set and changes nothing.
pub open spec fn metadata_step(pre: FileModel, post: FileModel, r: Poll<Metadata>) -> bool {
    match r {
        Poll::Ready(md) => pre.pending == 0 && md == snapshot(pre) && post == pre,
        Poll::NotReady => step_not_ready(pre, post),
        Poll::Failed(_) => false,
    }
}

/// The state of a fresh duplicate handle: the same file seen through a new,
/// immediately ready view.
pub open spec fn cloned_model(m: FileModel) -> FileModel {
    FileModel { pending: 0, ..m }
}

/// One primitive permission change on a modeled file: a completed change
/// installs exactly the requested permission set.
pub open spec fn set_permissions_step(
    pre: FileModel,
    post: FileModel,
    perm: Permissions,
    r: Poll<()>,
) -> bool {
    match r {
        Poll::Ready(u) => {
            &&& pre.pending == 0
            &&& post == (FileModel { readonly: perm.readonly, ..pre })
        },
        Poll::NotReady => step_not_ready(pre, post),
        Poll::Failed(_) => false,
    }
}

/// Lifts `seek_step` to the optional model of the capability interface: a
/// modeled file takes exactly a seek step and stays modeled; an unmodeled
/// file stays unmodeled.
pub open spec fn seek_obs(
    pre: Option<FileModel>,
    post: Option<FileModel>,
    pos: SeekFrom,
    r: Poll<u64>,
) -> bool {
    match pre {
        Some(m) => post matches Some(m2) && seek_step(m, m2, pos, r),
        None => post is None,
    }
}

/// Lifts `sync_step` to the optional model, as `seek_obs` does for seeks.
pub open spec fn sync_obs(pre: Option<FileModel>, post: Option<FileModel>, r: Poll<()>) -> bool {
    match pre {
        Some(m) => post matches Some(m2) && sync_step(m, m2, r),
        None => post is None,
    }
}

/// Lifts `set_len_step` to the optional model.
pub open spec fn set_len_obs(
    pre: Option<FileModel>,
    post: Option<FileModel>,
    size: u64,
    r: Poll<()>,
) -> bool {
    match pre {
        Some(m) => post matches Some(m2) && set_len_step(m, m2, size, r),
        None => post is None,
    }
}

/// Lifts `metadata_step` to the optional model.
pub open spec fn metadata_obs(
    pre: Option<FileModel>,
    post: Option<FileModel>,
    r: Poll<Metadata>,
) -> bool {
    match pre {
        Some(m) => post matches Some(m2) && metadata_step(m, m2, r),
        None => post is None,
    }
}

/// Lifts `set_permissions_step` to the optional model.
pub open spec fn set_permissions_obs(
    pre: Option<FileModel>,
    post: Option<FileModel>,
    perm: Permissions,
    r: Poll<()>,
) -> bool {
    match pre {
        Some(m) => post matches Some(m2) && set_permissions_step(m, m2, perm, r),
        None => post is None,
    }
}

} // verus!
