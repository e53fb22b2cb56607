use vstd::prelude::*;

use crate::errors::ValidationError;
use crate::time::Timestamp;

verus! {

/// A person in the contact book: name, derived display name, email and
/// phone number. All four source fields are non-empty in a well-formed
/// value, and the display name is derived once, at construction.
#[derive(Debug, PartialEq, Eq)]
pub struct Contact {
    pub first_name: String,
    pub last_name: String,
    pub display_name: String,
    pub email: String,
    pub phone_number: String,
}

/// The mathematical value of a `Contact`: its five fields as character
/// sequences.
pub struct ContactModel {
    pub first_name: Seq<char>,
    pub last_name: Seq<char>,
    pub display_name: Seq<char>,
    pub email: Seq<char>,
    pub phone_number: Seq<char>,
}

impl View for Contact {
    type V = ContactModel;

    open spec fn view(&self) -> ContactModel {
        ContactModel {
            first_name: self.first_name@,
            last_name: self.last_name@,
            display_name: self.display_name@,
            email: self.email@,
            phone_number: self.phone_number@,
        }
    }
}

impl Contact {
    /// The four source fields a contact is built from are all non-empty.
    pub open spec fn valid_parts(
        first_name: Seq<char>,
        last_name: Seq<char>,
        email: Seq<char>,
        phone_number: Seq<char>,
    ) -> bool {
        &&& first_name.len() > 0
        &&& last_name.len() > 0
        &&& email.len() > 0
        &&& phone_number.len() > 0
    }

    /// Well-formedness: non-empty source fields, and the display name is
    /// first and last name joined by a single space.
    pub open spec fn wf(self) -> bool {
        &&& Self::valid_parts(self.first_name@, self.last_name@, self.email@, self.phone_number@)
        &&& self.display_name@ == self.first_name@ + " "@ + self.last_name@
    }

    /// Build a contact from raw fields. Succeeds exactly when all four
    /// fields are non-empty (no trimming is applied first), and then
    /// derives the display name by joining first and last name with a
    /// single space; no other normalization is performed.
    pub fn new(
        first_name: &str,
        last_name: &str,
        email: &str,
        phone_number: &str,
    ) -> (r: Result<Contact, ValidationError>)
        ensures
            r is Ok <==> Self::valid_parts(first_name@, last_name@, email@, phone_number@),
            (r matches Ok(c) ==> {
                &&& c.first_name@ == first_name@
                &&& c.last_name@ == last_name@
                &&& c.email@ == email@
                &&& c.phone_number@ == phone_number@
                &&& c.display_name@ == first_name@ + " "@ + last_name@
                &&& c.wf()
            }),
            (r matches Err(e) ==> e == ValidationError::EmptyField),
    {
        if first_name.is_empty() || last_name.is_empty() || email.is_empty()
            || phone_number.is_empty() {
            return Err(ValidationError::EmptyField);
        }
        let mut display_name = first_name.to_owned();
        display_name.append(" ");
        display_name.append(last_name);
        Ok(Contact {
            first_name: first_name.to_owned(),
            last_name: last_name.to_owned(),
            display_name,
            email: email.to_owned(),
            phone_number: phone_number.to_owned(),
        })
    }
}

impl Clone for Contact {
    /// A clone carries the same five field values.
    fn clone(&self) -> (r: Contact)
        ensures
            r@ == self@,
    {
        Contact {
            first_name: self.first_name.clone(),
            last_name: self.last_name.clone(),
            display_name: self.display_name.clone(),
            email: self.email.clone(),
            phone_number: self.phone_number.clone(),
        }
    }
}

/// A contact together with the id the store assigned to its row.
#[derive(Debug, PartialEq, Eq)]
pub struct IndexedContact {
    pub id: i64,
    pub contact: Contact,
}

/// The mathematical value of an `IndexedContact`.
pub struct IndexedContactModel {
    pub id: i64,
    pub contact: ContactModel,
}

impl View for IndexedContact {
    type V = IndexedContactModel;

    open spec fn view(&self) -> IndexedContactModel {
        IndexedContactModel { id: self.id, contact: self.contact@ }
    }
}

impl Clone for IndexedContact {
    /// A clone carries the same id and contact value.
    fn clone(&self) -> (r: IndexedContact)
        ensures
            r@ == self@,
            r.id == self.id,
    {
        IndexedContact { id: self.id, contact: self.contact.clone() }
    }
}

/// A sparse partial update aimed at one stored contact: only the fields
/// that are present are touched by the merge; a present field replaces the
/// stored value even when it is an explicit empty string. The display name
/// is not recomputed when name fields change; a patch that leaves it absent
/// leaves it stale on purpose.
#[derive(Debug, PartialEq, Eq)]
pub struct ContactPatch {
    pub id: i64,
    pub first_name: Option<String>,
    pub last_name: Option<String>,
    pub display_name: Option<String>,
    pub email: Option<String>,
    pub phone_number: Option<String>,
}

/// The mathematical value of a `ContactPatch`.
pub struct ContactPatchModel {
    pub id: i64,
    pub first_name: Option<Seq<char>>,
    pub last_name: Option<Seq<char>>,
    pub display_name: Option<Seq<char>>,
    pub email: Option<Seq<char>>,
    pub phone_number: Option<Seq<char>>,
}

pub open spec fn view_of_opt_string(o: Option<String>) -> Option<Seq<char>> {
    match o {
        Some(s) => Some(s@),
        None => None,
    }
}

impl View for ContactPatch {
    type V = ContactPatchModel;

    open spec fn view(&self) -> ContactPatchModel {
        ContactPatchModel {
            id: self.id,
            first_name: view_of_opt_string(self.first_name),
            last_name: view_of_opt_string(self.last_name),
            display_name: view_of_opt_string(self.display_name),
            email: view_of_opt_string(self.email),
            phone_number: view_of_opt_string(self.phone_number),
        }
    }
}

impl Clone for ContactPatch {
    /// A clone aims at the same id and carries the same field updates.
    fn clone(&self) -> (r: ContactPatch)
        ensures
            r@ == self@,
    {
        ContactPatch {
            id: self.id,
            first_name: clone_opt_string(&self.first_name),
            last_name: clone_opt_string(&self.last_name),
            display_name: clone_opt_string(&self.display_name),
            email: clone_opt_string(&self.email),
            phone_number: clone_opt_string(&self.phone_number),
        }
    }
}

fn clone_opt_string(o: &Option<String>) -> (r: Option<String>)
    ensures
        view_of_opt_string(r) == view_of_opt_string(*o),
{
    match o {
        Some(s) => Some(s.clone()),
        None => None,
    }
}

/// The merge rule: a present patch field replaces the stored one, an
/// absent field leaves it untouched.
pub open spec fn merge_contact(current: ContactModel, patch: ContactPatchModel) -> ContactModel {
    ContactModel {
        first_name: merge_field(current.first_name, patch.first_name),
        last_name: merge_field(current.last_name, patch.last_name),
        display_name: merge_field(current.display_name, patch.display_name),
        email: merge_field(current.email, patch.email),
        phone_number: merge_field(current.phone_number, patch.phone_number),
    }
}

pub open spec fn merge_field(current: Seq<char>, patch: Option<Seq<char>>) -> Seq<char> {
    match patch {
        Some(s) => s,
        None => current,
    }
}

impl ContactPatch {
    /// Build a patch aimed at contact `id`. Fails exactly when `id` is not
    /// positive; every combination of present and absent fields is
    /// accepted, with no cross-field validation.
    pub fn new(
        id: i64,
        first_name: Option<String>,
        last_name: Option<String>,
        display_name: Option<String>,
        email: Option<String>,
        phone_number: Option<String>,
    ) -> (r: Result<ContactPatch, ValidationError>)
        ensures
            r is Ok <==> id > 0,
            (r matches Ok(p) ==> p == (ContactPatch {
                id,
                first_name,
                last_name,
                display_name,
                email,
                phone_number,
            })),
            (r matches Err(e) ==> e == ValidationError::NonPositiveId),
    {
        if id <= 0 {
            return Err(ValidationError::NonPositiveId);
        }
        Ok(ContactPatch { id, first_name, last_name, display_name, email, phone_number })
    }

    /// Merge this patch onto a stored contact and hand back the merged row.
    pub fn apply(&self, current: &Contact) -> (r: Contact)
        ensures
            r@ == merge_contact(current@, self@),
    {
        Contact {
            first_name: clone_merged(&current.first_name, &self.first_name),
            last_name: clone_merged(&current.last_name, &self.last_name),
            display_name: clone_merged(&current.display_name, &self.display_name),
            email: clone_merged(&current.email, &self.email),
            phone_number: clone_merged(&current.phone_number, &self.phone_number),
        }
    }
}

fn clone_merged(current: &String, patch: &Option<String>) -> (r: String)
    ensures
        r@ == merge_field(current@, view_of_opt_string(*patch)),
{
    match patch {
        Some(s) => s.clone(),
        None => current.clone(),
    }
}

/// Merge law: a patch that carries only an email changes only the email;
/// first name, last name, display name and phone number stay as stored.
pub proof fn lemma_merge_email_only(current: ContactModel, patch: ContactPatchModel)
    requires
        patch.first_name is None,
        patch.last_name is None,
        patch.display_name is None,
        patch.phone_number is None,
        patch.email matches Some(e),
    ensures
        merge_contact(current, patch).email == patch.email.unwrap(),
        merge_contact(current, patch).first_name == current.first_name,
        merge_contact(current, patch).last_name == current.last_name,
        merge_contact(current, patch).display_name == current.display_name,
        merge_contact(current, patch).phone_number == current.phone_number,
{
}

/// Idempotence of the merge: applying one patch twice leaves the same
/// contact as applying it once.
pub proof fn lemma_merge_idempotent(current: ContactModel, patch: ContactPatchModel)
    ensures
        merge_contact(merge_contact(current, patch), patch) == merge_contact(current, patch),
{
}

/// Per-contact auxiliary state: flags, reminder cadence and timestamps,
/// kept one-to-one with a contact row.
#[derive(Clone, Copy, Debug, PartialEq, Eq)]
pub struct Metadata {
    pub contact_id: i64,
    pub starred: bool,
    pub is_archived: bool,
    pub frequency: Option<i64>,
    pub created_at: Timestamp,
    pub updated_at: Timestamp,
    pub last_seen_at: Option<Timestamp>,
    pub next_reminder_at: Option<Timestamp>,
    pub last_reminder_at: Option<Timestamp>,
}

impl Metadata {
    /// The metadata row created alongside a fresh contact: flags off, no
    /// cadence, both audit stamps at `now`, optional stamps absent.
    pub open spec fn fresh(contact_id: i64, now: Timestamp) -> Metadata {
        Metadata {
            contact_id,
            starred: false,
            is_archived: false,
            frequency: None,
            created_at: now,
            updated_at: now,
            last_seen_at: None,
            next_reminder_at: None,
            last_reminder_at: None,
        }
    }

    /// Build the metadata row for a newly created contact.
    pub fn new(contact_id: i64, now: Timestamp) -> (r: Metadata)
        ensures
            r == Metadata::fresh(contact_id, now),
    {
        Metadata {
            contact_id,
            starred: false,
            is_archived: false,
            frequency: None,
            created_at: now,
            updated_at: now,
            last_seen_at: None,
            next_reminder_at: None,
            last_reminder_at: None,
        }
    }
}

impl Default for Metadata {
    /// The all-absent row aimed at no contact, stamped at the epoch.
    fn default() -> (r: Metadata)
        ensures
            r == Metadata::fresh(0, Timestamp { millis: 0 }),
    {
        Metadata::new(0, Timestamp { millis: 0 })
    }
}

} // verus!
