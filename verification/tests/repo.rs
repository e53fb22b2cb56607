use contact_book::db::basic::ContactRepo as BasicContactRepo;
use contact_book::db::{ContactRepo, FakeDb, MetadataRepo};
use contact_book::errors::RepoError;
use contact_book::models::{Contact, ContactPatch, IndexedContact, Metadata};
use contact_book::time::Timestamp;

#[test]
fn first_insert_gets_id_one_and_metadata() {
    let mut db = FakeDb::new();
    let c = Contact::new("John", "Smith", "johndoe@example.com", "123-456-7890").unwrap();
    let id = db.create_contact(c).unwrap();
    assert_eq!(id, 1);
    let m = db.get_by_id(1).unwrap();
    assert_eq!(m.contact_id, 1);
    assert!(!m.starred);
    assert!(!m.is_archived);
    assert_eq!(m.frequency, None);
    assert_eq!(m.last_seen_at, None);
}

#[test]
fn create_then_get_round_trips() {
    let mut db = FakeDb::new();
    let c = Contact::new("John", "Doe", "johndoe@example.com", "1234567890").unwrap();
    let id = db.create_contact(c.clone()).unwrap();
    let row = db.get_contact_by_id(id).unwrap();
    assert_eq!(row, IndexedContact { id, contact: c });
}

#[test]
fn ids_are_issued_monotonically() {
    let mut db = FakeDb::new();
    let c = Contact::new("A", "B", "a@b.c", "1").unwrap();
    assert_eq!(db.create_contact(c.clone()).unwrap(), 1);
    assert_eq!(db.create_contact(c.clone()).unwrap(), 2);
    assert_eq!(db.delete_contact_by_id(1).unwrap(), 1);
    assert_eq!(db.create_contact(c).unwrap(), 3);
}

#[test]
fn get_and_delete_missing_id_report_not_found() {
    let mut db = FakeDb::new();
    assert_eq!(db.get_contact_by_id(42), Err(RepoError::NotFound));
    assert_eq!(db.delete_contact_by_id(42), Err(RepoError::NotFound));
    let c = Contact::new("A", "B", "a@b.c", "1").unwrap();
    let id = db.create_contact(c).unwrap();
    assert_eq!(db.delete_contact_by_id(id), Ok(id));
    assert_eq!(db.get_contact_by_id(id), Err(RepoError::NotFound));
    assert_eq!(db.delete_contact_by_id(id), Err(RepoError::NotFound));
}

#[test]
fn get_all_on_empty_store_is_empty() {
    let mut db = FakeDb::new();
    assert_eq!(db.get_all_contacts().unwrap().len(), 0);
}

#[test]
fn get_all_orders_rows_by_id() {
    let mut db = FakeDb::new();
    let c = Contact::new("A", "B", "a@b.c", "1").unwrap();
    db.load_contact(IndexedContact { id: 3, contact: c.clone() }).unwrap();
    db.load_contact(IndexedContact { id: 1, contact: c.clone() }).unwrap();
    db.load_contact(IndexedContact { id: 2, contact: c.clone() }).unwrap();
    let rows = db.get_all_contacts().unwrap();
    let ids: Vec<i64> = rows.iter().map(|r| r.id).collect();
    assert_eq!(ids, vec![1, 2, 3]);
    let next = db.create_contact(c).unwrap();
    assert_eq!(next, 4);
}

#[test]
fn load_contact_refuses_taken_or_bad_ids() {
    let mut db = FakeDb::new();
    let c = Contact::new("A", "B", "a@b.c", "1").unwrap();
    db.load_contact(IndexedContact { id: 2, contact: c.clone() }).unwrap();
    assert_eq!(
        db.load_contact(IndexedContact { id: 2, contact: c.clone() }),
        Err(RepoError::Backend)
    );
    assert_eq!(
        db.load_contact(IndexedContact { id: 0, contact: c.clone() }),
        Err(RepoError::Backend)
    );
    assert_eq!(
        db.load_contact(IndexedContact { id: -3, contact: c }),
        Err(RepoError::Backend)
    );
}

#[test]
fn update_merges_only_present_fields() {
    let mut db = FakeDb::new();
    let c = Contact::new("John", "Doe", "johndoe@example.com", "1234567890").unwrap();
    let id = db.create_contact(c).unwrap();
    let p = ContactPatch::new(id, None, None, None, Some("new@example.com".to_string()), None)
        .unwrap();
    ContactRepo::update_contact(&mut db, p).unwrap();
    let row = db.get_contact_by_id(id).unwrap();
    assert_eq!(row.contact.first_name, "John");
    assert_eq!(row.contact.last_name, "Doe");
    assert_eq!(row.contact.display_name, "John Doe");
    assert_eq!(row.contact.phone_number, "1234567890");
    assert_eq!(row.contact.email, "new@example.com");
}

#[test]
fn update_twice_leaves_same_row_as_once() {
    let mut db = FakeDb::new();
    let c = Contact::new("John", "Doe", "johndoe@example.com", "1234567890").unwrap();
    let id = db.create_contact(c).unwrap();
    let p = ContactPatch::new(
        id,
        Some("Jane".to_string()),
        None,
        None,
        Some("jane@example.com".to_string()),
        None,
    )
    .unwrap();
    ContactRepo::update_contact(&mut db, p.clone()).unwrap();
    let once = db.get_contact_by_id(id).unwrap();
    ContactRepo::update_contact(&mut db, p).unwrap();
    let twice = db.get_contact_by_id(id).unwrap();
    assert_eq!(once, twice);
}

#[test]
fn update_missing_id_reports_not_found() {
    let mut db = FakeDb::new();
    let p = ContactPatch::new(9, None, None, None, None, None).unwrap();
    assert_eq!(ContactRepo::update_contact(&mut db, p), Err(RepoError::NotFound));
}

#[test]
fn delete_does_not_cascade_to_metadata() {
    let mut db = FakeDb::new();
    let c = Contact::new("A", "B", "a@b.c", "1").unwrap();
    let id = db.create_contact(c).unwrap();
    db.delete_contact_by_id(id).unwrap();
    assert!(db.get_by_id(id).is_ok());
}

#[test]
fn create_contact_reports_partial_when_metadata_is_taken() {
    let mut db = FakeDb::new();
    let orphan = Metadata::new(1, Timestamp::from_millis(5));
    db.create(orphan).unwrap();
    let c = Contact::new("A", "B", "a@b.c", "1").unwrap();
    assert_eq!(db.create_contact(c), Err(RepoError::Partial));
    assert!(db.get_contact_by_id(1).is_ok());
}

#[test]
fn metadata_create_assigns_row_ids_in_order() {
    let mut db = FakeDb::new();
    assert_eq!(db.create(Metadata::new(7, Timestamp::from_millis(0))).unwrap(), 1);
    assert_eq!(db.create(Metadata::new(8, Timestamp::from_millis(0))).unwrap(), 2);
}

#[test]
fn metadata_create_refuses_duplicate_contact_id() {
    let mut db = FakeDb::new();
    db.create(Metadata::new(7, Timestamp::from_millis(0))).unwrap();
    assert_eq!(
        db.create(Metadata::new(7, Timestamp::from_millis(9))),
        Err(RepoError::Backend)
    );
}

#[test]
fn save_contact_skips_metadata_and_update_hook_is_a_no_op() {
    let mut db = FakeDb::new();
    let c = Contact::new("John", "Smith", "johndoe@example.com", "123-456-7890").unwrap();
    let id = BasicContactRepo::save_contact(&mut db, c).unwrap();
    assert_eq!(id, 1);
    assert_eq!(db.get_by_id(1), Err(contact_book::errors::RepoError::NotFound));
    assert_eq!(BasicContactRepo::update_contact(&mut db), Ok(()));
    let rows = BasicContactRepo::get_all(&mut db).unwrap();
    assert_eq!(rows.len(), 1);
    assert_eq!(rows[0].id, 1);
}

#[test]
fn metadata_round_trips_by_contact_id() {
    let mut db = FakeDb::new();
    let m = Metadata {
        contact_id: 1,
        starred: true,
        frequency: Some(30),
        ..Metadata::default()
    };
    db.create(m).unwrap();
    assert_eq!(db.get_by_id(1), Ok(m));
    assert_eq!(db.get_by_id(2), Err(RepoError::NotFound));
}
