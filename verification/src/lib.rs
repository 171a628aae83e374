//! Chainable, suspendable wrappers around the pollable primitive operations
//! of an open file.
//!
//! A file-like resource exposes seven primitives (seek, flush all, flush
//! data, resize, query metadata, duplicate, change permissions), each of
//! which is one non-blocking attempt that is either done, not yet complete,
//! or failed. The [`AsyncFile`] capability interface declares those
//! primitives together with seven chain-starting methods that consume the
//! resource and wrap it into a single-use suspendable computation — one type
//! per operation — which owns the resource until the operation completes and
//! hands it back alongside the operation's result, so further operations can
//! be chained without reopening the file. Every computation implements the
//! capability interface itself by delegating to the handle it holds, so a
//! pending computation can stand wherever a handle can.
//!
//! Contracts are stated over an optional mathematical file state
//! ([`FileModel`]): the in-library [`SimFile`] carries an exact model, while
//! the real provider's handle (`tokio_fs::file::File`) is unmodeled and only
//! the structural guarantees (ownership transfer, single use, verbatim
//! pass-through of outcomes) apply to it.

mod async_file;
mod fsfile;
mod get_metadata;
mod laws;
mod model;
mod seek;
mod set_len;
mod set_permissions;
mod sim;
mod sync_all;
mod sync_data;
mod try_clone;
mod types;

pub use async_file::{AsyncFile, HandleView};
pub use get_metadata::GetMetadata;
pub use laws::{
    lemma_get_metadata_view_transparent, lemma_not_ready_preserves_state,
    lemma_seek_outcome_exclusive, lemma_seek_outcome_fixed_by_drained_state,
    lemma_seek_view_transparent, lemma_set_len_outcome_exclusive,
    lemma_set_len_then_metadata, lemma_set_len_view_transparent,
    lemma_set_permissions_view_transparent, lemma_sync_all_view_transparent,
    lemma_sync_data_view_transparent, lemma_try_clone_view_transparent,
};
pub use model::{
    cloned_model, drained, metadata_obs, metadata_step, seek_err, seek_in_range, seek_obs,
    seek_step, seek_target, set_len_err, set_len_obs, set_len_step, set_permissions_obs,
    set_permissions_step, snapshot, step_not_ready, sync_obs, sync_step, FileModel,
};
pub use seek::Seek;
pub use set_len::SetLen;
pub use set_permissions::SetPermissions;
pub use sim::SimFile;
pub use sync_all::SyncAll;
pub use sync_data::SyncData;
pub use try_clone::TryClone;
pub use types::{Error, ErrorKind, Metadata, Permissions, Poll, SeekFrom};
