use vstd::prelude::*;

use crate::db::expectations::Expectations;
use crate::errors::RepoError;
use crate::models::{Contact, IndexedContact};

verus! {

/// A minimal contact repository contract: save a contact, list every row,
/// and a coarse update hook that takes no patch. It is the narrow face a
/// front end needs when partial updates are out of the picture; as with the
/// richer `ContactRepo`, each implementing type fixes the behaviour through
/// its own spec functions.
pub trait ContactRepo: Sized {
    spec fn save_contact_req(&self, contact: Contact) -> bool;

    spec fn save_contact_ens(&self, post: Self, contact: Contact, r: Result<
        i64,
        RepoError,
    >) -> bool;

    spec fn get_all_req(&self) -> bool;

    spec fn get_all_ens(&self, post: Self, r: Result<Vec<IndexedContact>, RepoError>) -> bool;

    spec fn update_contact_req(&self) -> bool;

    spec fn update_contact_ens(&self, post: Self, r: Result<(), RepoError>) -> bool;

    /// Insert a contact row and hand back the store-assigned id.
    fn save_contact(&mut self, contact: Contact) -> (r: Result<i64, RepoError>)
        requires
            old(self).save_contact_req(contact),
        ensures
            old(self).save_contact_ens(*final(self), contact, r),
    ;

    /// All stored rows, ordered ascending by id.
    fn get_all(&mut self) -> (r: Result<Vec<IndexedContact>, RepoError>)
        requires
            old(self).get_all_req(),
        ensures
            old(self).get_all_ens(*final(self), r),
    ;

    /// Refresh stored rows in bulk; what is refreshed is the backend's
    /// business.
    fn update_contact(&mut self) -> (r: Result<(), RepoError>)
        requires
            old(self).update_contact_req(),
        ensures
            old(self).update_contact_ens(*final(self), r),
    ;
}

/// A deterministic stand-in for the minimal contact repository: records
/// every call's argument, replays programmed responses in order, and
/// answers `RepoError::Backend` once a script runs out.
pub struct MockContactRepo {
    pub save_contact: Expectations<Contact, Result<i64, RepoError>>,
    pub get_all: Expectations<(), Result<Vec<IndexedContact>, RepoError>>,
    pub update_contact: Expectations<(), Result<(), RepoError>>,
}

impl MockContactRepo {
    /// A mock with every script empty.
    pub fn new() -> (r: MockContactRepo)
        ensures
            r.save_contact.calls@.len() == 0,
            r.save_contact.responses@.len() == 0,
            r.get_all.calls@.len() == 0,
            r.get_all.responses@.len() == 0,
            r.update_contact.calls@.len() == 0,
            r.update_contact.responses@.len() == 0,
    {
        MockContactRepo {
            save_contact: Expectations::new(),
            get_all: Expectations::new(),
            update_contact: Expectations::new(),
        }
    }
}

impl ContactRepo for MockContactRepo {
    open spec fn save_contact_req(&self, contact: Contact) -> bool {
        true
    }

    open spec fn save_contact_ens(&self, post: Self, contact: Contact, r: Result<
        i64,
        RepoError,
    >) -> bool {
        &&& post.save_contact.scripted(self.save_contact, contact, r, Err(RepoError::Backend))
        &&& post.get_all == self.get_all
        &&& post.update_contact == self.update_contact
    }

    open spec fn get_all_req(&self) -> bool {
        true
    }

    open spec fn get_all_ens(&self, post: Self, r: Result<Vec<IndexedContact>, RepoError>) -> bool {
        &&& post.get_all.scripted(self.get_all, (), r, Err(RepoError::Backend))
        &&& post.save_contact == self.save_contact
        &&& post.update_contact == self.update_contact
    }

    open spec fn update_contact_req(&self) -> bool {
        true
    }

    open spec fn update_contact_ens(&self, post: Self, r: Result<(), RepoError>) -> bool {
        &&& post.update_contact.scripted(self.update_contact, (), r, Err(RepoError::Backend))
        &&& post.save_contact == self.save_contact
        &&& post.get_all == self.get_all
    }

    fn save_contact(&mut self, contact: Contact) -> (r: Result<i64, RepoError>) {
        self.save_contact.invoke(contact, Err(RepoError::Backend))
    }

    fn get_all(&mut self) -> (r: Result<Vec<IndexedContact>, RepoError>) {
        self.get_all.invoke((), Err(RepoError::Backend))
    }

    fn update_contact(&mut self) -> (r: Result<(), RepoError>) {
        self.update_contact.invoke((), Err(RepoError::Backend))
    }
}

} // verus!
