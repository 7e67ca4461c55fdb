pub mod pubkey;
pub mod error;
pub mod fee;
pub mod address;
pub mod state;
pub mod event;
pub mod bytes;
pub mod instruction;
pub mod config;
pub mod vault;
pub mod position;
pub mod laws;
pub mod sdk;
pub mod layout;
