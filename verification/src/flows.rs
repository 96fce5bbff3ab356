//! The operations of the backup. Each is a value that waits for one reply at a time.

pub mod cloud_only;
pub mod detail;
pub mod enable;
pub mod entry;
pub mod handlers;
pub mod integrity;
pub mod passkey;
pub mod queue;
pub mod restore;
pub mod uploads;
pub mod verification;
