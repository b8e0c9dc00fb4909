//! Named provider profiles, kept one TOML file each, and the rules by which
//! the secret of a profile is located.
//!
//! The library decides and does not touch the disk: each operation of the
//! store takes what the caller found there and returns what is to be done
//! there, or the error. What the operations make of the files, one after the
//! other, is stated and proved in `profile::store`.
//!
//! - `paths`: the configuration root and the profile directory.
//! - `profile::model`: the profile record.
//! - `profile::codec`: the record as a TOML document, and back.
//! - `profile::names`: file names, and the listing of a directory.
//! - `profile::manager`: create, get, delete and list.
//! - `profile::store`: the laws of the store.
//! - `credential`: from a credential source and the answer of its backend
//!   to the secret.
//! - `document`: the `toml` crate, as far as the codec calls it.
//! - `text`: the lexicographic order of texts.
//! - `error`: the errors.

pub mod credential;
pub mod document;
pub mod error;
pub mod paths;
pub mod profile;
pub mod text;
