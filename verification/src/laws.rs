use vstd::prelude::*;
use crate::async_file::HandleView;
use crate::get_metadata::GetMetadata;
use crate::model::{
    drained, metadata_step, seek_step, seek_target, set_len_step, step_not_ready, FileModel,
};
use crate::seek::Seek;
use crate::set_len::SetLen;
use crate::set_permissions::SetPermissions;
use crate::sync_all::SyncAll;
use crate::sync_data::SyncData;
use crate::try_clone::TryClone;
use crate::types::{Error, Metadata, Poll, SeekFrom};

verus! {

/// Pass-through fidelity of the view: a pending seek computation exposes
/// exactly the well-formedness and the file state of the handle it holds.
/// Together with the capability interface's contracts — which every
/// delegating implementation proves over this very view — delegating a
/// primitive through a wrapping computation is indistinguishable from
/// invoking it on the base handle.
pub proof fn lemma_seek_view_transparent<T: HandleView>(s: Seek<T>, f: T)
    requires
        s.inner == Some(f),
    ensures
        s.file_model() == f.file_model(),
        s.inv() == f.inv(),
{
}

/// Pass-through fidelity of the view, for a pending flush computation.
pub proof fn lemma_sync_all_view_transparent<T: HandleView>(s: SyncAll<T>, f: T)
    requires
        s.inner == Some(f),
    ensures
        s.file_model() == f.file_model(),
        s.inv() == f.inv(),
{
}

/// Pass-through fidelity of the view, for a pending data-flush computation.
pub proof fn lemma_sync_data_view_transparent<T: HandleView>(s: SyncData<T>, f: T)
    requires
        s.inner == Some(f),
    ensures
        s.file_model() == f.file_model(),
        s.inv() == f.inv(),
{
}

/// Pass-through fidelity of the view, for a pending length-change
/// computation.
pub proof fn lemma_set_len_view_transparent<T: HandleView>(s: SetLen<T>, f: T)
    requires
        s.inner == Some(f),
    ensures
        s.file_model() == f.file_model(),
        s.inv() == f.inv(),
{
}

/// Pass-through fidelity of the view, for a pending metadata query.
pub proof fn lemma_get_metadata_view_transparent<T: HandleView>(s: GetMetadata<T>, f: T)
    requires
        s.inner == Some(f),
    ensures
        s.file_model() == f.file_model(),
        s.inv() == f.inv(),
{
}

/// Pass-through fidelity of the view, for a pending duplication.
pub proof fn lemma_try_clone_view_transparent<T: HandleView>(s: TryClone<T>, f: T)
    requires
        s.inner == Some(f),
    ensures
        s.file_model() == f.file_model(),
        s.inv() == f.inv(),
{
}

/// Pass-through fidelity of the view, for a pending permission change.
pub proof fn lemma_set_permissions_view_transparent<T: HandleView>(s: SetPermissions<T>, f: T)
    requires
        s.inner == Some(f),
    ensures
        s.file_model() == f.file_model(),
        s.inv() == f.inv(),
{
}

/// A suspension step consumes one unit of readiness delay and nothing else:
/// length, cursor and permissions are untouched, so what the operation will
/// eventually produce — a function of the drained state — is already fixed.
pub proof fn lemma_not_ready_preserves_state(pre: FileModel, post: FileModel)
    requires
        step_not_ready(pre, post),
    ensures
        post.len == pre.len,
        post.pos == pre.pos,
        post.readonly == pre.readonly,
        post.pending == pre.pending - 1,
        drained(post) == drained(pre),
{
}

/// A delayed seek reaches the same outcome an always-ready one reaches: two
/// ready files that differ at most in how long they were suspended complete
/// the same seek request with the same offset, or fail with the same failure
/// class.
pub proof fn lemma_seek_outcome_fixed_by_drained_state(
    a: FileModel,
    b: FileModel,
    pos: SeekFrom,
    a2: FileModel,
    b2: FileModel,
    ra: Poll<u64>,
    rb: Poll<u64>,
)
    requires
        drained(a) == drained(b),
        a.pending == 0,
        b.pending == 0,
        seek_step(a, a2, pos, ra),
        seek_step(b, b2, pos, rb),
    ensures
        ra matches Poll::Ready(n) ==> rb == Poll::Ready(n) && drained(a2) == drained(b2),
        ra matches Poll::Failed(e) ==> (rb matches Poll::Failed(e2) && e2.kind == e.kind),
{
    assert(seek_target(a, pos) == seek_target(drained(a), pos));
    assert(seek_target(b, pos) == seek_target(drained(b), pos));
}

/// Terminal at most once, seen on the model: from one ready state, a
/// primitive cannot both complete and fail — a computation is never reported
/// both as failed and as having produced a usable handle. Here for a seek.
pub proof fn lemma_seek_outcome_exclusive(
    pre: FileModel,
    post1: FileModel,
    pos: SeekFrom,
    n: u64,
)
    requires
        seek_step(pre, post1, pos, Poll::Ready(n)),
    ensures
        forall|post2: FileModel, e: Error| !seek_step(pre, post2, pos, Poll::Failed(e)),
{
}

/// Terminal at most once, seen on the model, for a length change: success
/// requires a writable file, failure a read-only one — never both.
pub proof fn lemma_set_len_outcome_exclusive(pre: FileModel, post1: FileModel, size: u64)
    requires
        set_len_step(pre, post1, size, Poll::Ready(())),
    ensures
        forall|post2: FileModel, e: Error| !set_len_step(pre, post2, size, Poll::Failed(e)),
{
}

/// Ordering of a chain, seen on the model: a second operation starts from
/// exactly the state in which the first completed. In particular, once a
/// length change to `size` has completed, a completed metadata query on the
/// returned handle reports exactly `size`, whatever the file looked like
/// before.
pub proof fn lemma_set_len_then_metadata(
    pre: FileModel,
    mid: FileModel,
    post: FileModel,
    size: u64,
    md: Metadata,
)
    requires
        set_len_step(pre, mid, size, Poll::Ready(())),
        metadata_step(mid, post, Poll::Ready(md)),
    ensures
        md == (Metadata { len: size, readonly: pre.readonly }),
        post == mid,
{
}

} // verus!
