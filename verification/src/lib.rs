//! Authenticated encryption at rest for a single opaque text blob.
//!
//! A record is the 12-byte nonce followed by the AES-256-GCM output
//! (ciphertext, then the 16-byte tag). The library turns text into record
//! bytes and record bytes back into text; reading and writing the file is
//! left to the caller.

pub mod cipher;
pub mod record;
pub mod store;
pub mod text;

pub use cipher::{KEY_SIZE, NONCE_SIZE, TAG_SIZE};
pub use store::{SecureBlobStore, StoreError};
