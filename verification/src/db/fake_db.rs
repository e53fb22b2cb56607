use vstd::prelude::*;

use crate::db::contact_repo::ContactRepo;
use crate::db::metadata_repo::MetadataRepo;
use crate::errors::RepoError;
use crate::models::{Contact, ContactPatch, ContactPatchModel, IndexedContact, Metadata};
use crate::models::{lemma_merge_idempotent, merge_contact};
use crate::time::Timestamp;

verus! {

/// Some stored row carries the given contact id.
pub open spec fn contains_contact_id(s: Seq<IndexedContact>, id: i64) -> bool {
    exists|i: int| 0 <= i < s.len() && #[trigger] s[i].id == id
}

/// Some stored metadata row belongs to the given contact.
pub open spec fn contains_meta_for(s: Seq<Metadata>, contact_id: i64) -> bool {
    exists|i: int| 0 <= i < s.len() && #[trigger] s[i].contact_id == contact_id
}

/// A metadata insert respects the store's constraints: the owning contact
/// id is not taken yet, and the store can still assign a row id.
pub open spec fn meta_insert_ok(s: Seq<Metadata>, contact_id: i64) -> bool {
    &&& !contains_meta_for(s, contact_id)
    &&& s.len() < i64::MAX
}

/// How one application of a patch rewrites the contact table: rows whose id
/// the patch does not aim at are untouched, and every row carrying the
/// patched id keeps its id and holds the merged contact afterwards.
pub open spec fn table_updated(
    pre: Seq<IndexedContact>,
    post: Seq<IndexedContact>,
    p: ContactPatchModel,
) -> bool {
    &&& post.len() == pre.len()
    &&& forall|j: int| 0 <= j < pre.len() && #[trigger] pre[j].id != p.id ==> post[j] == pre[j]
    &&& forall|j: int|
        0 <= j < pre.len() && #[trigger] pre[j].id == p.id ==> post[j].id == p.id
            && post[j].contact@ == merge_contact(pre[j].contact@, p)
}

/// Idempotence at the store: when one patch is applied twice in a row,
/// the second application leaves every row as the first left it.
pub proof fn lemma_update_idempotent(
    pre: Seq<IndexedContact>,
    mid: Seq<IndexedContact>,
    post: Seq<IndexedContact>,
    p: ContactPatchModel,
)
    requires
        table_updated(pre, mid, p),
        table_updated(mid, post, p),
    ensures
        forall|j: int| 0 <= j < post.len() ==> #[trigger] post[j]@ == mid[j]@,
{
    assert forall|j: int| 0 <= j < post.len() implies #[trigger] post[j]@ == mid[j]@ by {
        if pre[j].id == p.id {
            lemma_merge_idempotent(pre[j].contact@, p);
        }
    }
}

/// An in-memory relational store holding both tables, the substitutable
/// backend used where no networked store is wanted. Contact rows are kept
/// ordered ascending by id, ids are issued monotonically from
/// `next_contact_id`, and metadata rows are unique per owning contact, as
/// the relational schema's constraints demand.
pub struct FakeDb {
    pub contacts: Vec<IndexedContact>,
    pub metadata: Vec<Metadata>,
    pub next_contact_id: i64,
}

impl FakeDb {
    /// The contact table's invariant: ids are positive, below the next id
    /// to issue, and strictly ascending (hence unique).
    pub open spec fn contacts_wf(self) -> bool {
        &&& 1 <= self.next_contact_id
        &&& forall|i: int|
            0 <= i < self.contacts@.len() ==> 0 < #[trigger] self.contacts@[i].id
                < self.next_contact_id
        &&& forall|i: int, j: int|
            0 <= i < j < self.contacts@.len() ==> #[trigger] self.contacts@[i].id
                < #[trigger] self.contacts@[j].id
    }

    /// The metadata table's invariant: at most one row per owning contact.
    pub open spec fn metadata_wf(self) -> bool {
        forall|i: int, j: int|
            0 <= i < j < self.metadata@.len() ==> #[trigger] self.metadata@[i].contact_id
                != #[trigger] self.metadata@[j].contact_id
    }

    pub open spec fn wf(self) -> bool {
        &&& self.contacts_wf()
        &&& self.metadata_wf()
    }

    /// An empty store, about to issue id 1.
    pub fn new() -> (r: FakeDb)
        ensures
            r.contacts@.len() == 0,
            r.metadata@.len() == 0,
            r.next_contact_id == 1,
            r.wf(),
    {
        FakeDb { contacts: Vec::new(), metadata: Vec::new(), next_contact_id: 1 }
    }

    /// Seed the store with a contact row persisted in an earlier life of
    /// the store (as after a restart): the row keeps the id it was assigned
    /// back then, takes its ordered place, and pushes the next id to issue
    /// past it. Refused when the id is out of the store's range or taken.
    #[verifier::loop_isolation(false)]
    pub fn load_contact(&mut self, row: IndexedContact) -> (r: Result<(), RepoError>)
        requires
            old(self).wf(),
        ensures
            final(self).metadata == old(self).metadata,
            final(self).wf(),
            (if row.id <= 0 || row.id == i64::MAX || contains_contact_id(
                old(self).contacts@,
                row.id,
            ) {
                &&& r == Err::<(), RepoError>(RepoError::Backend)
                &&& *final(self) == *old(self)
            } else {
                &&& r == Ok::<(), RepoError>(())
                &&& final(self).next_contact_id == (if old(self).next_contact_id > row.id {
                    old(self).next_contact_id as int
                } else {
                    row.id + 1
                })
                &&& exists|k: int|
                    0 <= k <= old(self).contacts@.len() && final(self).contacts@ == old(
                        self,
                    ).contacts@.insert(k, row)
            }),
    {
        if row.id <= 0 || row.id == i64::MAX {
            return Err(RepoError::Backend);
        }
        let mut k: usize = 0;
        while k < self.contacts.len() && self.contacts[k].id < row.id
            invariant
                k <= self.contacts@.len(),
                forall|j: int| 0 <= j < k ==> #[trigger] self.contacts@[j].id < row.id,
                self == old(self),
            decreases self.contacts@.len() - k,
        {
            k += 1;
        }
        if k < self.contacts.len() && self.contacts[k].id == row.id {
            proof {
                assert(contains_contact_id(self.contacts@, row.id));
            }
            return Err(RepoError::Backend);
        }
        proof {
            assert forall|j: int| 0 <= j < self.contacts@.len() implies #[trigger] self
                .contacts@[j].id != row.id by {
                if j < k {
                } else if j == k {
                } else {
                    assert(self.contacts@[k as int].id < self.contacts@[j].id);
                }
            }
            assert(!contains_contact_id(self.contacts@, row.id));
        }
        let row_id = row.id;
        self.contacts.insert(k, row);
        if self.next_contact_id <= row_id {
            self.next_contact_id = row_id + 1;
        }
        proof {
            let s = old(self).contacts@;
            let t = self.contacts@;
            assert forall|idx: int| 0 <= idx < t.len() implies t[idx] == (if idx < k {
                s[idx]
            } else if idx == k {
                row
            } else {
                s[idx - 1]
            }) by {}
            assert forall|i: int, j: int| 0 <= i < j < t.len() implies #[trigger] t[i].id
                < #[trigger] t[j].id by {
                if i != k && j != k {
                    if i < k && j > k {
                        assert(t[i] == s[i] && t[j] == s[j - 1]);
                        if i == j - 1 {
                            assert(s[i].id < row.id);
                            assert(self.contacts@[k as int] == row);
                        }
                    }
                }
            }
            assert(self.wf());
            assert(self.contacts@ == old(self).contacts@.insert(k as int, row));
        }
        Ok(())
    }
}

/// Round trip of creation: in the contact table left behind by a
/// successful `create_contact`, the one row carrying the id that the call
/// returned is the created contact, unchanged — so a following
/// `get_contact_by_id` with that id yields exactly that pair.
pub proof fn lemma_create_then_get(s: Seq<IndexedContact>, contact: Contact, id: i64)
    requires
        forall|i: int| 0 <= i < s.len() ==> #[trigger] s[i].id < id,
    ensures
        contains_contact_id(s.push(IndexedContact { id, contact }), id),
        forall|k: int|
            0 <= k < s.push(IndexedContact { id, contact }).len() && #[trigger] s.push(
                IndexedContact { id, contact },
            )[k].id == id ==> s.push(IndexedContact { id, contact })[k] == (IndexedContact {
                id,
                contact,
            }),
{
    let t = s.push(IndexedContact { id, contact });
    assert(t[s.len() as int] == (IndexedContact { id, contact }));
    assert(t[s.len() as int].id == id);
    assert(contains_contact_id(t, id));
    assert forall|k: int| 0 <= k < t.len() && #[trigger] t[k].id == id implies t[k]
        == (IndexedContact { id, contact }) by {
        if k < s.len() {
            assert(t[k] == s[k]);
        }
    }
}

impl MetadataRepo for FakeDb {
    open spec fn create_req(&self, metadata: Metadata) -> bool {
        self.wf()
    }

    open spec fn create_ens(&self, post: Self, metadata: Metadata, r: Result<
        i64,
        RepoError,
    >) -> bool {
        &&& post.contacts == self.contacts
        &&& post.next_contact_id == self.next_contact_id
        &&& post.wf()
        &&& if meta_insert_ok(self.metadata@, metadata.contact_id) {
            &&& r == Ok::<i64, RepoError>((self.metadata@.len() + 1) as i64)
            &&& post.metadata@ == self.metadata@.push(metadata)
        } else {
            &&& r == Err::<i64, RepoError>(RepoError::Backend)
            &&& post.metadata == self.metadata
        }
    }

    open spec fn get_by_id_req(&self, contact_id: i64) -> bool {
        self.wf()
    }

    open spec fn get_by_id_ens(&self, post: Self, contact_id: i64, r: Result<
        Metadata,
        RepoError,
    >) -> bool {
        &&& post == *self
        &&& (r is Ok <==> contains_meta_for(self.metadata@, contact_id))
        &&& (r matches Ok(m) ==> m.contact_id == contact_id && exists|k: int|
            0 <= k < self.metadata@.len() && #[trigger] self.metadata@[k] == m)
        &&& (r matches Err(e) ==> e == RepoError::NotFound)
    }

    #[verifier::loop_isolation(false)]
    fn create(&mut self, metadata: Metadata) -> (r: Result<i64, RepoError>) {
        let mut k: usize = 0;
        while k < self.metadata.len()
            invariant
                k <= self.metadata@.len(),
                forall|j: int|
                    0 <= j < k ==> #[trigger] self.metadata@[j].contact_id != metadata.contact_id,
                self == old(self),
            decreases self.metadata@.len() - k,
        {
            if self.metadata[k].contact_id == metadata.contact_id {
                proof {
                    assert(contains_meta_for(self.metadata@, metadata.contact_id));
                }
                return Err(RepoError::Backend);
            }
            k += 1;
        }
        if self.metadata.len() as u64 >= i64::MAX as u64 {
            return Err(RepoError::Backend);
        }
        let row_id: i64 = (self.metadata.len() as i64) + 1;
        self.metadata.push(metadata);
        Ok(row_id)
    }

    #[verifier::loop_isolation(false)]
    fn get_by_id(&mut self, contact_id: i64) -> (r: Result<Metadata, RepoError>) {
        let mut k: usize = 0;
        while k < self.metadata.len()
            invariant
                k <= self.metadata@.len(),
                forall|j: int|
                    0 <= j < k ==> #[trigger] self.metadata@[j].contact_id != contact_id,
                self == old(self),
            decreases self.metadata@.len() - k,
        {
            if self.metadata[k].contact_id == contact_id {
                return Ok(self.metadata[k]);
            }
            k += 1;
        }
        Err(RepoError::NotFound)
    }
}

impl ContactRepo for FakeDb {
    open spec fn create_contact_req(&self, contact: Contact) -> bool {
        self.wf()
    }

    open spec fn create_contact_ens(&self, post: Self, contact: Contact, r: Result<
        i64,
        RepoError,
    >) -> bool {
        if self.next_contact_id == i64::MAX {
            &&& r == Err::<i64, RepoError>(RepoError::Backend)
            &&& post == *self
        } else {
            let id = self.next_contact_id;
            &&& post.contacts@ == self.contacts@.push(IndexedContact { id, contact })
            &&& post.next_contact_id == self.next_contact_id + 1
            &&& post.wf()
            &&& if meta_insert_ok(self.metadata@, id) {
                &&& r == Ok::<i64, RepoError>(id)
                &&& exists|now: Timestamp|
                    post.metadata@ == self.metadata@.push(#[trigger] Metadata::fresh(id, now))
            } else {
                &&& r == Err::<i64, RepoError>(RepoError::Partial)
                &&& post.metadata == self.metadata
            }
        }
    }

    open spec fn get_all_contacts_req(&self) -> bool {
        self.wf()
    }

    open spec fn get_all_contacts_ens(&self, post: Self, r: Result<
        Vec<IndexedContact>,
        RepoError,
    >) -> bool {
        &&& post == *self
        &&& r is Ok
        &&& (r matches Ok(rows) ==> {
            &&& rows@.len() == self.contacts@.len()
            &&& forall|j: int|
                0 <= j < rows@.len() ==> #[trigger] rows@[j]@ == self.contacts@[j]@
            &&& forall|i: int, j: int|
                0 <= i < j < rows@.len() ==> #[trigger] rows@[i].id < #[trigger] rows@[j].id
        })
    }

    open spec fn update_contact_req(&self, patch: ContactPatch) -> bool {
        self.wf()
    }

    open spec fn update_contact_ens(&self, post: Self, patch: ContactPatch, r: Result<
        (),
        RepoError,
    >) -> bool {
        &&& post.metadata == self.metadata
        &&& post.next_contact_id == self.next_contact_id
        &&& post.wf()
        &&& (r is Ok <==> contains_contact_id(self.contacts@, patch.id))
        &&& (r matches Err(e) ==> e == RepoError::NotFound && post == *self)
        &&& (r is Ok ==> table_updated(self.contacts@, post.contacts@, patch@))
    }

    open spec fn get_contact_by_id_req(&self, id: i64) -> bool {
        self.wf()
    }

    open spec fn get_contact_by_id_ens(&self, post: Self, id: i64, r: Result<
        IndexedContact,
        RepoError,
    >) -> bool {
        &&& post == *self
        &&& (r is Ok <==> contains_contact_id(self.contacts@, id))
        &&& (r matches Ok(row) ==> row.id == id && exists|k: int|
            0 <= k < self.contacts@.len() && #[trigger] self.contacts@[k].id == id && row@
                == self.contacts@[k]@)
        &&& (r matches Err(e) ==> e == RepoError::NotFound)
    }

    open spec fn delete_contact_by_id_req(&self, id: i64) -> bool {
        self.wf()
    }

    open spec fn delete_contact_by_id_ens(&self, post: Self, id: i64, r: Result<
        i64,
        RepoError,
    >) -> bool {
        &&& post.metadata == self.metadata
        &&& post.next_contact_id == self.next_contact_id
        &&& post.wf()
        &&& (r is Ok <==> contains_contact_id(self.contacts@, id))
        &&& (r matches Ok(deleted) ==> deleted == id && exists|k: int|
            0 <= k < self.contacts@.len() && #[trigger] self.contacts@[k].id == id
                && post.contacts@ == self.contacts@.remove(k))
        &&& (r matches Err(e) ==> e == RepoError::NotFound && post == *self)
    }

    /// Inserts the contact under the next id, then creates the metadata row
    /// owed to it; a metadata insert refused by the store's constraints
    /// leaves the contact row behind and reports the partial outcome.
    #[verifier::loop_isolation(false)]
    fn create_contact(&mut self, contact: Contact) -> (r: Result<i64, RepoError>) {
        if self.next_contact_id == i64::MAX {
            return Err(RepoError::Backend);
        }
        let id = self.next_contact_id;
        self.contacts.push(IndexedContact { id, contact });
        self.next_contact_id = id + 1;
        proof {
            assert forall|i: int, j: int| 0 <= i < j < self.contacts@.len() implies
                #[trigger] self.contacts@[i].id < #[trigger] self.contacts@[j].id by {
                if j == self.contacts@.len() - 1 {
                    assert(old(self).contacts@[i].id < id);
                }
            }
            assert(self.wf());
        }
        let now = Timestamp::now();
        let meta = Metadata::new(id, now);
        match self.create(meta) {
            Ok(_row_id) => Ok(id),
            Err(_e) => Err(RepoError::Partial),
        }
    }

    #[verifier::loop_isolation(false)]
    fn get_all_contacts(&mut self) -> (r: Result<Vec<IndexedContact>, RepoError>) {
        let mut rows: Vec<IndexedContact> = Vec::new();
        let mut k: usize = 0;
        while k < self.contacts.len()
            invariant
                k <= self.contacts@.len(),
                rows@.len() == k,
                forall|j: int| 0 <= j < k ==> #[trigger] rows@[j]@ == self.contacts@[j]@,
            decreases self.contacts@.len() - k,
        {
            rows.push(self.contacts[k].clone());
            k += 1;
        }
        proof {
            assert forall|i: int, j: int| 0 <= i < j < rows@.len() implies
                #[trigger] rows@[i].id < #[trigger] rows@[j].id by {
                assert(rows@[i]@ == self.contacts@[i]@);
                assert(rows@[j]@ == self.contacts@[j]@);
            }
        }
        Ok(rows)
    }

    #[verifier::loop_isolation(false)]
    fn update_contact(&mut self, patch: ContactPatch) -> (r: Result<(), RepoError>) {
        let mut k: usize = 0;
        while k < self.contacts.len()
            invariant
                k <= self.contacts@.len(),
                forall|j: int| 0 <= j < k ==> #[trigger] self.contacts@[j].id != patch.id,
                self == old(self),
            decreases self.contacts@.len() - k,
        {
            if self.contacts[k].id == patch.id {
                let row = self.contacts.remove(k);
                let merged = patch.apply(&row.contact);
                self.contacts.insert(k, IndexedContact { id: row.id, contact: merged });
                proof {
                    assert(contains_contact_id(old(self).contacts@, patch.id));
                    assert forall|j: int| 0 <= j < old(self).contacts@.len() implies
                        #[trigger] self.contacts@[j].id == old(self).contacts@[j].id by {
                        if j < k {
                        } else if j == k {
                        } else {
                            assert(old(self).contacts@.remove(k as int)[j - 1]
                                == old(self).contacts@[j]);
                        }
                    }
                    assert(self.wf());
                }
                return Ok(());
            }
            k += 1;
        }
        Err(RepoError::NotFound)
    }

    #[verifier::loop_isolation(false)]
    fn get_contact_by_id(&mut self, id: i64) -> (r: Result<IndexedContact, RepoError>) {
        let mut k: usize = 0;
        while k < self.contacts.len()
            invariant
                k <= self.contacts@.len(),
                forall|j: int| 0 <= j < k ==> #[trigger] self.contacts@[j].id != id,
                self == old(self),
            decreases self.contacts@.len() - k,
        {
            if self.contacts[k].id == id {
                proof {
                    assert(contains_contact_id(self.contacts@, id));
                }
                return Ok(self.contacts[k].clone());
            }
            k += 1;
        }
        Err(RepoError::NotFound)
    }

    /// Removes only the contact row: the metadata row, if any, is left
    /// behind on purpose — no cascade is performed.
    #[verifier::loop_isolation(false)]
    fn delete_contact_by_id(&mut self, id: i64) -> (r: Result<i64, RepoError>) {
        let mut k: usize = 0;
        while k < self.contacts.len()
            invariant
                k <= self.contacts@.len(),
                forall|j: int| 0 <= j < k ==> #[trigger] self.contacts@[j].id != id,
                self == old(self),
            decreases self.contacts@.len() - k,
        {
            if self.contacts[k].id == id {
                proof {
                    assert(contains_contact_id(self.contacts@, id));
                }
                self.contacts.remove(k);
                proof {
                    assert forall|i: int, j: int| 0 <= i < j < self.contacts@.len() implies
                        #[trigger] self.contacts@[i].id < #[trigger] self.contacts@[j].id by {
                        assert(self.contacts@ == old(self).contacts@.remove(k as int));
                    }
                    assert(self.wf());
                }
                return Ok(id);
            }
            k += 1;
        }
        Err(RepoError::NotFound)
    }
}

impl crate::db::basic::ContactRepo for FakeDb {
    open spec fn save_contact_req(&self, contact: Contact) -> bool {
        self.wf()
    }

    open spec fn save_contact_ens(&self, post: Self, contact: Contact, r: Result<
        i64,
        RepoError,
    >) -> bool {
        if self.next_contact_id == i64::MAX {
            &&& r == Err::<i64, RepoError>(RepoError::Backend)
            &&& post == *self
        } else {
            let id = self.next_contact_id;
            &&& r == Ok::<i64, RepoError>(id)
            &&& post.contacts@ == self.contacts@.push(IndexedContact { id, contact })
            &&& post.next_contact_id == self.next_contact_id + 1
            &&& post.metadata == self.metadata
            &&& post.wf()
        }
    }

    open spec fn get_all_req(&self) -> bool {
        self.wf()
    }

    open spec fn get_all_ens(&self, post: Self, r: Result<Vec<IndexedContact>, RepoError>) -> bool {
        &&& post == *self
        &&& r is Ok
        &&& (r matches Ok(rows) ==> {
            &&& rows@.len() == self.contacts@.len()
            &&& forall|j: int| 0 <= j < rows@.len() ==> #[trigger] rows@[j]@ == self.contacts@[j]@
        })
    }

    open spec fn update_contact_req(&self) -> bool {
        true
    }

    open spec fn update_contact_ens(&self, post: Self, r: Result<(), RepoError>) -> bool {
        &&& post == *self
        &&& r == Ok::<(), RepoError>(())
    }

    /// Inserts only the contact row: under this narrow contract no
    /// metadata is owed, so none is created.
    fn save_contact(&mut self, contact: Contact) -> (r: Result<i64, RepoError>) {
        if self.next_contact_id == i64::MAX {
            return Err(RepoError::Backend);
        }
        let id = self.next_contact_id;
        self.contacts.push(IndexedContact { id, contact });
        self.next_contact_id = id + 1;
        proof {
            assert forall|i: int, j: int| 0 <= i < j < self.contacts@.len() implies
                #[trigger] self.contacts@[i].id < #[trigger] self.contacts@[j].id by {
                if j == self.contacts@.len() - 1 {
                    assert(old(self).contacts@[i].id < id);
                }
            }
            assert(self.wf());
        }
        Ok(id)
    }

    #[verifier::loop_isolation(false)]
    fn get_all(&mut self) -> (r: Result<Vec<IndexedContact>, RepoError>) {
        let mut rows: Vec<IndexedContact> = Vec::new();
        let mut k: usize = 0;
        while k < self.contacts.len()
            invariant
                k <= self.contacts@.len(),
                rows@.len() == k,
                forall|j: int| 0 <= j < k ==> #[trigger] rows@[j]@ == self.contacts@[j]@,
            decreases self.contacts@.len() - k,
        {
            rows.push(self.contacts[k].clone());
            k += 1;
        }
        Ok(rows)
    }

    /// The bulk refresh hook: this store keeps every row current already,
    /// so there is nothing to refresh.
    fn update_contact(&mut self) -> (r: Result<(), RepoError>) {
        Ok(())
    }
}

} // verus!
