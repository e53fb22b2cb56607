use vstd::prelude::*;

use crate::db::expectations::Expectations;
use crate::errors::RepoError;
use crate::models::{Contact, ContactPatch, IndexedContact};

verus! {

/// The repository contract for contact rows: create, read, update through a
/// patch, and delete, independent of any particular backend. What each
/// operation does to the stored rows is fixed by the implementing type
/// through its own spec functions, so a persistent backend and a
/// deterministic test double can stand behind the same contract.
pub trait ContactRepo: Sized {
    spec fn create_contact_req(&self, contact: Contact) -> bool;

    spec fn create_contact_ens(&self, post: Self, contact: Contact, r: Result<
        i64,
        RepoError,
    >) -> bool;

    spec fn get_all_contacts_req(&self) -> bool;

    spec fn get_all_contacts_ens(&self, post: Self, r: Result<Vec<IndexedContact>, RepoError>) -> bool;

    spec fn update_contact_req(&self, patch: ContactPatch) -> bool;

    spec fn update_contact_ens(&self, post: Self, patch: ContactPatch, r: Result<
        (),
        RepoError,
    >) -> bool;

    spec fn get_contact_by_id_req(&self, id: i64) -> bool;

    spec fn get_contact_by_id_ens(&self, post: Self, id: i64, r: Result<
        IndexedContact,
        RepoError,
    >) -> bool;

    spec fn delete_contact_by_id_req(&self, id: i64) -> bool;

    spec fn delete_contact_by_id_ens(&self, post: Self, id: i64, r: Result<
        i64,
        RepoError,
    >) -> bool;

    /// Insert a new contact row; the store assigns the id. On success the
    /// backend has also created the fresh metadata row owed to the new
    /// contact.
    fn create_contact(&mut self, contact: Contact) -> (r: Result<i64, RepoError>)
        requires
            old(self).create_contact_req(contact),
        ensures
            old(self).create_contact_ens(*final(self), contact, r),
    ;

    /// All stored contact rows, ordered ascending by id; an empty store
    /// yields an empty sequence, not an error.
    fn get_all_contacts(&mut self) -> (r: Result<Vec<IndexedContact>, RepoError>)
        requires
            old(self).get_all_contacts_req(),
        ensures
            old(self).get_all_contacts_ens(*final(self), r),
    ;

    /// Merge a patch onto the row it aims at: absent fields stay, present
    /// fields replace.
    fn update_contact(&mut self, patch: ContactPatch) -> (r: Result<(), RepoError>)
        requires
            old(self).update_contact_req(patch),
        ensures
            old(self).update_contact_ens(*final(self), patch, r),
    ;

    /// The row with the given id, when there is one.
    fn get_contact_by_id(&mut self, id: i64) -> (r: Result<IndexedContact, RepoError>)
        requires
            old(self).get_contact_by_id_req(id),
        ensures
            old(self).get_contact_by_id_ens(*final(self), id, r),
    ;

    /// Remove the row with the given id and hand the id back.
    fn delete_contact_by_id(&mut self, id: i64) -> (r: Result<i64, RepoError>)
        requires
            old(self).delete_contact_by_id_req(id),
        ensures
            old(self).delete_contact_by_id_ens(*final(self), id, r),
    ;
}

/// A deterministic stand-in for a `ContactRepo` backend: each method records
/// its argument and replays the responses programmed for it, in order, and
/// answers `RepoError::Backend` once its script runs out. It never touches
/// real storage.
pub struct MockContactRepo {
    pub create_contact: Expectations<Contact, Result<i64, RepoError>>,
    pub get_all_contacts: Expectations<(), Result<Vec<IndexedContact>, RepoError>>,
    pub update_contact: Expectations<ContactPatch, Result<(), RepoError>>,
    pub get_contact_by_id: Expectations<i64, Result<IndexedContact, RepoError>>,
    pub delete_contact_by_id: Expectations<i64, Result<i64, RepoError>>,
}

impl MockContactRepo {
    /// A mock with every script empty.
    pub fn new() -> (r: MockContactRepo)
        ensures
            r.create_contact.calls@.len() == 0,
            r.create_contact.responses@.len() == 0,
            r.get_all_contacts.calls@.len() == 0,
            r.get_all_contacts.responses@.len() == 0,
            r.update_contact.calls@.len() == 0,
            r.update_contact.responses@.len() == 0,
            r.get_contact_by_id.calls@.len() == 0,
            r.get_contact_by_id.responses@.len() == 0,
            r.delete_contact_by_id.calls@.len() == 0,
            r.delete_contact_by_id.responses@.len() == 0,
    {
        MockContactRepo {
            create_contact: Expectations::new(),
            get_all_contacts: Expectations::new(),
            update_contact: Expectations::new(),
            get_contact_by_id: Expectations::new(),
            delete_contact_by_id: Expectations::new(),
        }
    }
}

impl ContactRepo for MockContactRepo {
    open spec fn create_contact_req(&self, contact: Contact) -> bool {
        true
    }

    open spec fn create_contact_ens(&self, post: Self, contact: Contact, r: Result<
        i64,
        RepoError,
    >) -> bool {
        &&& post.create_contact.scripted(
            self.create_contact,
            contact,
            r,
            Err(RepoError::Backend),
        )
        &&& post.get_all_contacts == self.get_all_contacts
        &&& post.update_contact == self.update_contact
        &&& post.get_contact_by_id == self.get_contact_by_id
        &&& post.delete_contact_by_id == self.delete_contact_by_id
    }

    open spec fn get_all_contacts_req(&self) -> bool {
        true
    }

    open spec fn get_all_contacts_ens(&self, post: Self, r: Result<
        Vec<IndexedContact>,
        RepoError,
    >) -> bool {
        &&& post.get_all_contacts.scripted(self.get_all_contacts, (), r, Err(RepoError::Backend))
        &&& post.create_contact == self.create_contact
        &&& post.update_contact == self.update_contact
        &&& post.get_contact_by_id == self.get_contact_by_id
        &&& post.delete_contact_by_id == self.delete_contact_by_id
    }

    open spec fn update_contact_req(&self, patch: ContactPatch) -> bool {
        true
    }

    open spec fn update_contact_ens(&self, post: Self, patch: ContactPatch, r: Result<
        (),
        RepoError,
    >) -> bool {
        &&& post.update_contact.scripted(self.update_contact, patch, r, Err(RepoError::Backend))
        &&& post.create_contact == self.create_contact
        &&& post.get_all_contacts == self.get_all_contacts
        &&& post.get_contact_by_id == self.get_contact_by_id
        &&& post.delete_contact_by_id == self.delete_contact_by_id
    }

    open spec fn get_contact_by_id_req(&self, id: i64) -> bool {
        true
    }

    open spec fn get_contact_by_id_ens(&self, post: Self, id: i64, r: Result<
        IndexedContact,
        RepoError,
    >) -> bool {
        &&& post.get_contact_by_id.scripted(self.get_contact_by_id, id, r, Err(RepoError::Backend))
        &&& post.create_contact == self.create_contact
        &&& post.get_all_contacts == self.get_all_contacts
        &&& post.update_contact == self.update_contact
        &&& post.delete_contact_by_id == self.delete_contact_by_id
    }

    open spec fn delete_contact_by_id_req(&self, id: i64) -> bool {
        true
    }

    open spec fn delete_contact_by_id_ens(&self, post: Self, id: i64, r: Result<
        i64,
        RepoError,
    >) -> bool {
        &&& post.delete_contact_by_id.scripted(
            self.delete_contact_by_id,
            id,
            r,
            Err(RepoError::Backend),
        )
        &&& post.create_contact == self.create_contact
        &&& post.get_all_contacts == self.get_all_contacts
        &&& post.update_contact == self.update_contact
        &&& post.get_contact_by_id == self.get_contact_by_id
    }

    fn create_contact(&mut self, contact: Contact) -> (r: Result<i64, RepoError>) {
        self.create_contact.invoke(contact, Err(RepoError::Backend))
    }

    fn get_all_contacts(&mut self) -> (r: Result<Vec<IndexedContact>, RepoError>) {
        self.get_all_contacts.invoke((), Err(RepoError::Backend))
    }

    fn update_contact(&mut self, patch: ContactPatch) -> (r: Result<(), RepoError>) {
        self.update_contact.invoke(patch, Err(RepoError::Backend))
    }

    fn get_contact_by_id(&mut self, id: i64) -> (r: Result<IndexedContact, RepoError>) {
        self.get_contact_by_id.invoke(id, Err(RepoError::Backend))
    }

    fn delete_contact_by_id(&mut self, id: i64) -> (r: Result<i64, RepoError>) {
        self.delete_contact_by_id.invoke(id, Err(RepoError::Backend))
    }
}

} // verus!
