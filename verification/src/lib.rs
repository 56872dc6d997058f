pub mod database;
pub mod error;
pub mod latch;
pub mod laws;
pub mod store;

pub use database::Database;
pub use error::{classify, forward, Classified, ClassifiedView, Error, ErrorView, Fault};
pub use latch::CorruptionState;
pub use store::{Call, Exchange, Store};
