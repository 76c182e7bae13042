//! Configuration records, Fernet secrets and validation.

pub mod crypto;
pub mod fernet;
pub mod settings;
