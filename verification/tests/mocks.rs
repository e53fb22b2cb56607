use contact_book::db::basic;
use contact_book::db::basic::ContactRepo as BasicContactRepo;
use contact_book::db::contact_repo::MockContactRepo;
use contact_book::db::metadata_repo::MockMetadataRepo;
use contact_book::db::{ContactRepo, FakeDb, MetadataRepo};
use contact_book::models::{Contact, ContactPatch, IndexedContact, Metadata};

#[test]
fn db_test_save_contact() {
    let mut mock_contact_repo = basic::MockContactRepo::new();

    let test_contact =
        Contact::new("John", "Smith", "johndoe@example.com", "123-456-7890").unwrap();

    mock_contact_repo.save_contact.expect(Ok(1));

    let result = mock_contact_repo.save_contact(test_contact.clone());

    let result = result.unwrap();

    assert_eq!(result, 1);
    assert_eq!(mock_contact_repo.save_contact.times_called(), 1);
    assert_eq!(mock_contact_repo.save_contact.calls[0], test_contact);
}

#[test]
fn db_test_get_all_contacts() {
    let mut mock_contact_repo = basic::MockContactRepo::new();

    let contacts = vec![IndexedContact {
        id: 1,
        contact: Contact::new("John", "Doe", "johndoe@example.com", "1234567890").unwrap(),
    }];

    mock_contact_repo.get_all.expect(Ok(contacts));

    let result = mock_contact_repo.get_all();

    assert!(result.is_ok());
    assert_eq!(mock_contact_repo.get_all.times_called(), 1);
}

#[test]
fn db_test_update_contact() {
    let mut mock_contact_repo = basic::MockContactRepo::new();

    mock_contact_repo.update_contact.expect(Ok(()));

    let result = mock_contact_repo.update_contact();

    assert!(result.is_ok());
    assert_eq!(mock_contact_repo.update_contact.times_called(), 1);
}

#[test]
fn test_save_contact() {
    let mut mock_contact_repo = MockContactRepo::new();

    let test_contact =
        Contact::new("John", "Smith", "johndoe@example.com", "123-456-7890").unwrap();

    mock_contact_repo.create_contact.expect(Ok(1));

    let result = mock_contact_repo.create_contact(test_contact.clone());

    let result = result.unwrap();

    assert_eq!(result, 1);
    assert_eq!(mock_contact_repo.create_contact.times_called(), 1);
    assert_eq!(mock_contact_repo.create_contact.calls[0], test_contact);
}

#[test]
fn test_get_all_contacts() {
    let mut mock_contact_repo = MockContactRepo::new();

    let contacts = vec![IndexedContact {
        id: 1,
        contact: Contact::new("John", "Doe", "johndoe@example.com", "1234567890").unwrap(),
    }];

    mock_contact_repo.get_all_contacts.expect(Ok(contacts));

    let result = mock_contact_repo.get_all_contacts();

    assert!(result.is_ok());
    assert_eq!(mock_contact_repo.get_all_contacts.times_called(), 1);
}

#[test]
fn test_update_contact() {
    let mut mock_contact_repo = MockContactRepo::new();

    mock_contact_repo.update_contact.expect(Ok(()));

    let edits = ContactPatch::new(
        1,
        None,
        None,
        Some("some@email.com".to_string()),
        None,
        None,
    )
    .unwrap();

    let result = mock_contact_repo.update_contact(edits);

    assert!(result.is_ok());
    assert_eq!(mock_contact_repo.update_contact.times_called(), 1);
}

#[test]
fn test_get_contact_by_id() {
    let mut mock_contact_repo = MockContactRepo::new();

    let contact = IndexedContact {
        id: 1,
        contact: Contact::new("John", "Doe", "johndoe@example.com", "1234567890").unwrap(),
    };

    let expected_id = contact.id;
    mock_contact_repo.get_contact_by_id.expect(Ok(contact));

    let result = mock_contact_repo.get_contact_by_id(1);

    assert!(result.is_ok());

    let actual_contact = result.unwrap();

    assert_eq!(actual_contact.id, 1);
    assert_eq!(mock_contact_repo.get_contact_by_id.times_called(), 1);
    assert_eq!(mock_contact_repo.get_contact_by_id.calls[0], expected_id);
}

#[test]
fn test_create_metadata_sqlite() {
    let mut repo = FakeDb::new();

    let test_metadata = Metadata::default();

    let result = repo.create(test_metadata.clone()).unwrap();
    assert!(result > 0);
}

#[test]
fn test_create_metadata() {
    let mut mock_metadata_repo = MockMetadataRepo::new();

    let test_metadata = Metadata::default();

    mock_metadata_repo.create.expect(Ok(1));

    let result = mock_metadata_repo.create(test_metadata);

    let result = result.unwrap();

    assert_eq!(result, 1);
    assert_eq!(mock_metadata_repo.create.times_called(), 1);
    assert_eq!(mock_metadata_repo.create.calls[0], test_metadata);
}

#[test]
fn test_get_metadata() {
    let mut mock_metadata_repo = MockMetadataRepo::new();

    let test_metadata = Metadata {
        contact_id: 1,
        ..Metadata::default()
    };

    let test_metadata_clone = test_metadata.clone();

    mock_metadata_repo.get_by_id.expect(Ok(test_metadata_clone));

    let result = mock_metadata_repo.get_by_id(1);

    assert!(result.is_ok());

    let expected_metadata = result.unwrap();

    assert_eq!(expected_metadata, test_metadata);
    assert_eq!(mock_metadata_repo.get_by_id.times_called(), 1);
    assert_eq!(mock_metadata_repo.get_by_id.calls[0], 1);
}

#[test]
fn mock_answers_backend_error_when_script_runs_out() {
    let mut mock_contact_repo = MockContactRepo::new();
    let result = mock_contact_repo.get_contact_by_id(5);
    assert_eq!(result, Err(contact_book::errors::RepoError::Backend));
}
