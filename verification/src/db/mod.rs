pub mod basic;
pub mod contact_repo;
pub mod expectations;
pub mod fake_db;
pub mod metadata_repo;

pub use contact_repo::ContactRepo;
pub use fake_db::FakeDb;
pub use metadata_repo::MetadataRepo;
