//! A task-tracking backend core: the task entity and its status codec, a
//! verified model of the persistence operations (create, list-active,
//! get-by-id, update, soft-delete) with their soft-delete invariant, the
//! mapping from operation outcomes to HTTP replies, and the connection-pool
//! configuration contract.

mod clock;
pub mod http;
pub mod pool;
pub mod status;
pub mod store;
pub mod task;
