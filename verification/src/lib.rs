//! Decision logic of an end-to-end encrypted wallet backup kept in cloud storage.

pub mod clock;
pub mod conversation;
pub mod entropy;
pub mod error;
pub mod flows;
pub mod frame;
pub mod hexcode;
pub mod laws;
pub mod machine;
pub mod manager;
pub mod mnemonic;
pub mod protocol;
pub mod record;
pub mod sequences;
pub mod state;
pub mod text;
pub mod upload_queue;
pub mod wallet;
