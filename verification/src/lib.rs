//! Persistence of CQRS events, snapshots and views in MongoDB: the layout of
//! the stored documents, how they are read back, and how the errors of the
//! MongoDB driver become repository errors.
pub mod document;
pub mod error;
pub mod event_repository;
pub mod view_repository;

pub use error::MongoAggregateError;
pub use event_repository::MongoEventRepository;
pub use view_repository::MongoViewRepository;
