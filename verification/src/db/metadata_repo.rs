use vstd::prelude::*;

use crate::db::expectations::Expectations;
use crate::errors::RepoError;
use crate::models::Metadata;

verus! {

/// The repository contract for metadata rows, looked up by the id of the
/// contact that owns them. As with `ContactRepo`, each implementing type
/// fixes what the operations do through its own spec functions.
pub trait MetadataRepo: Sized {
    spec fn create_req(&self, metadata: Metadata) -> bool;

    spec fn create_ens(&self, post: Self, metadata: Metadata, r: Result<i64, RepoError>) -> bool;

    spec fn get_by_id_req(&self, contact_id: i64) -> bool;

    spec fn get_by_id_ens(&self, post: Self, contact_id: i64, r: Result<
        Metadata,
        RepoError,
    >) -> bool;

    /// Insert a full metadata row, every field explicit, and hand back the
    /// store-assigned row id (independent of the contact id).
    fn create(&mut self, metadata: Metadata) -> (r: Result<i64, RepoError>)
        requires
            old(self).create_req(metadata),
        ensures
            old(self).create_ens(*final(self), metadata, r),
    ;

    /// The metadata row owned by the given contact, when there is one.
    fn get_by_id(&mut self, contact_id: i64) -> (r: Result<Metadata, RepoError>)
        requires
            old(self).get_by_id_req(contact_id),
        ensures
            old(self).get_by_id_ens(*final(self), contact_id, r),
    ;
}

/// A deterministic stand-in for a `MetadataRepo` backend: records every
/// call's argument, replays the programmed responses in order, and answers
/// `RepoError::Backend` once a script runs out. It never touches real
/// storage.
pub struct MockMetadataRepo {
    pub create: Expectations<Metadata, Result<i64, RepoError>>,
    pub get_by_id: Expectations<i64, Result<Metadata, RepoError>>,
}

impl MockMetadataRepo {
    /// A mock with every script empty.
    pub fn new() -> (r: MockMetadataRepo)
        ensures
            r.create.calls@.len() == 0,
            r.create.responses@.len() == 0,
            r.get_by_id.calls@.len() == 0,
            r.get_by_id.responses@.len() == 0,
    {
        MockMetadataRepo { create: Expectations::new(), get_by_id: Expectations::new() }
    }
}

impl MetadataRepo for MockMetadataRepo {
    open spec fn create_req(&self, metadata: Metadata) -> bool {
        true
    }

    open spec fn create_ens(&self, post: Self, metadata: Metadata, r: Result<
        i64,
        RepoError,
    >) -> bool {
        &&& post.create.scripted(self.create, metadata, r, Err(RepoError::Backend))
        &&& post.get_by_id == self.get_by_id
    }

    open spec fn get_by_id_req(&self, contact_id: i64) -> bool {
        true
    }

    open spec fn get_by_id_ens(&self, post: Self, contact_id: i64, r: Result<
        Metadata,
        RepoError,
    >) -> bool {
        &&& post.get_by_id.scripted(self.get_by_id, contact_id, r, Err(RepoError::Backend))
        &&& post.create == self.create
    }

    fn create(&mut self, metadata: Metadata) -> (r: Result<i64, RepoError>) {
        self.create.invoke(metadata, Err(RepoError::Backend))
    }

    fn get_by_id(&mut self, contact_id: i64) -> (r: Result<Metadata, RepoError>) {
        self.get_by_id.invoke(contact_id, Err(RepoError::Backend))
    }
}

} // verus!
