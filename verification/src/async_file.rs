use vstd::prelude::*;
use crate::model::{
    cloned_model, metadata_obs, seek_obs, set_len_obs, set_permissions_obs, step_not_ready,
    sync_obs, FileModel,
};
use crate::get_metadata::GetMetadata;
use crate::seek::Seek;
use crate::set_len::SetLen;
use crate::set_permissions::SetPermissions;
use crate::sync_all::SyncAll;
use crate::sync_data::SyncData;
use crate::try_clone::TryClone;
use crate::types::{Metadata, Permissions, Poll, SeekFrom};

verus! {

/// The ghost view of a file-like value: its well-formedness and, where one is
/// known, its mathematical file state. This stands apart from [`AsyncFile`]
/// so that the handle type a duplication yields can be spoken of in contracts
/// without referring back to the interface being defined.
pub trait HandleView: Sized {
    /// Well-formedness of the value as an operation target: for a wrapping
    /// computation, that its ownership slot still holds a well-formed handle.
    /// Polling requires it; a terminal computation no longer satisfies it and
    /// must not be polled again.
    spec fn inv(&self) -> bool;

    /// The mathematical file state visible through this value, where one is
    /// known; `None` for a real operating-system file, whose state lives
    /// outside the program.
    spec fn file_model(&self) -> Option<FileModel>;
}

/// The capability interface a file-like resource must satisfy: seven
/// primitive pollable operations, each a single non-blocking attempt, plus
/// chain-starting methods that consume the resource by value and wrap it into
/// the corresponding suspendable computation.
///
/// Each implementor exposes an optional mathematical file state through
/// [`HandleView::file_model`]. Where the state is known (`Some`), every
/// primitive's contract pins its outcome exactly with a step predicate from
/// [`crate::model`]; where it is not (`None`, the real operating-system
/// file), the contracts still guarantee the structural protocol: the
/// well-formedness of the receiver is preserved and an unmodeled file stays
/// unmodeled. Because every suspendable computation implements this interface
/// by forwarding to the handle it holds, the same contracts hold through any
/// number of wrapping computations: forwarding introduces no transformation.
pub trait AsyncFile: HandleView {
    /// The handle type a successful duplication yields. The provider's base
    /// handle duplicates to itself; a wrapping computation duplicates to
    /// whatever the handle it holds duplicates to.
    type Cloned: HandleView;

    /// One non-blocking attempt to move the file cursor to `pos`, yielding
    /// the new absolute offset.
    fn poll_seek(&mut self, pos: SeekFrom) -> (r: Poll<u64>)
        requires
            old(self).inv(),
        ensures
            final(self).inv(),
            seek_obs(old(self).file_model(), final(self).file_model(), pos, r),
    ;

    /// One non-blocking attempt to flush data and metadata to durable
    /// storage.
    fn poll_sync_all(&mut self) -> (r: Poll<()>)
        requires
            old(self).inv(),
        ensures
            final(self).inv(),
            sync_obs(old(self).file_model(), final(self).file_model(), r),
    ;

    /// One non-blocking attempt to flush data only — a weaker durability
    /// contract than `poll_sync_all`.
    fn poll_sync_data(&mut self) -> (r: Poll<()>)
        requires
            old(self).inv(),
        ensures
            final(self).inv(),
            sync_obs(old(self).file_model(), final(self).file_model(), r),
    ;

    /// One non-blocking attempt to truncate or extend the file to `size`
    /// bytes.
    fn poll_set_len(&mut self, size: u64) -> (r: Poll<()>)
        requires
            old(self).inv(),
        ensures
            final(self).inv(),
            set_len_obs(old(self).file_model(), final(self).file_model(), size, r),
    ;

    /// One non-blocking attempt to query a metadata snapshot.
    fn poll_metadata(&mut self) -> (r: Poll<Metadata>)
        requires
            old(self).inv(),
        ensures
            final(self).inv(),
            metadata_obs(old(self).file_model(), final(self).file_model(), r),
    ;

    /// One non-blocking attempt to produce a new handle onto the same
    /// underlying file. A modeled file yields an immediately ready duplicate
    /// with the same state and is itself unchanged.
    fn poll_try_clone(&mut self) -> (r: Poll<Self::Cloned>)
        requires
            old(self).inv(),
        ensures
            final(self).inv(),
            r matches Poll::Ready(h) ==> h.inv(),
            match old(self).file_model() {
                Some(pre) => match r {
                    Poll::Ready(h) => {
                        &&& pre.pending == 0
                        &&& final(self).file_model() == Some(pre)
                        &&& h.file_model() == Some(cloned_model(pre))
                    },
                    Poll::NotReady => (final(self).file_model() matches Some(post)
                        && step_not_ready(pre, post)),
                    Poll::Failed(_) => false,
                },
                None => final(self).file_model() is None,
            },
    ;

    /// One non-blocking attempt to apply the permission set `perm`.
    fn poll_set_permissions(&mut self, perm: Permissions) -> (r: Poll<()>)
        requires
            old(self).inv(),
        ensures
            final(self).inv(),
            set_permissions_obs(old(self).file_model(), final(self).file_model(), perm, r),
    ;

    /// Start a seek: consume the receiver and wrap it into a suspendable
    /// computation that will move the cursor to `pos`. No work happens until
    /// the computation is first polled; the same holds for every
    /// chain-starting method below.
    fn seek(self, pos: SeekFrom) -> (s: Seek<Self>)
        ensures
            s == (Seek { pos, inner: Some(self) }),
    {
        Seek { pos, inner: Some(self) }
    }

    /// Start a flush of data and metadata to durable storage.
    fn sync_all(self) -> (s: SyncAll<Self>)
        ensures
            s == (SyncAll { inner: Some(self) }),
    {
        SyncAll { inner: Some(self) }
    }

    /// Start a flush of data only.
    fn sync_data(self) -> (s: SyncData<Self>)
        ensures
            s == (SyncData { inner: Some(self) }),
    {
        SyncData { inner: Some(self) }
    }

    /// Start a truncate-or-extend of the file to `size` bytes.
    fn set_len(self, size: u64) -> (s: SetLen<Self>)
        ensures
            s == (SetLen { size, inner: Some(self) }),
    {
        SetLen { size, inner: Some(self) }
    }

    /// Start a metadata query.
    fn metadata(self) -> (s: GetMetadata<Self>)
        ensures
            s == (GetMetadata { inner: Some(self) }),
    {
        GetMetadata { inner: Some(self) }
    }

    /// Start a duplication of the handle.
    fn try_clone(self) -> (s: TryClone<Self>)
        ensures
            s == (TryClone { inner: Some(self) }),
    {
        TryClone { inner: Some(self) }
    }

    /// Start a permission change to the set `perm`.
    fn set_permissions(self, perm: Permissions) -> (s: SetPermissions<Self>)
        ensures
            s == (SetPermissions { perm, inner: Some(self) }),
    {
        SetPermissions { perm, inner: Some(self) }
    }
}

} // verus!
