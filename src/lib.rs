//! An encrypted local credential vault: key derivation, authenticated
//! encryption, the locked/unlocked session, password generation and
//! strength scoring.

pub mod crypto;
pub mod generator;
pub mod strength;
pub mod types;
pub mod vault;
