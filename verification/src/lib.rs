//! Locale-aware lookup of user-interface strings.
//!
//! Each locale has one TOML document of nested tables. A lookup key is a
//! dotted path into that document; a key that leads to a string, or to a
//! table with a string under `index`, is shown as that string, and every
//! other key is shown as itself. Documents are loaded on first use and kept
//! in a [`LangCache`] from then on; a load that fails is not remembered.
//!
//! The library reads no files. A host hands it what it found as a
//! [`Resource`], and gets failures back as a [`LoadError`] to log.

pub mod cache;
pub mod document;
pub mod encoding;
pub mod error;
pub mod lookup;
pub mod path;

pub use cache::{LangCache, Resource};
pub use document::TomlConfig;
pub use error::LoadError;
