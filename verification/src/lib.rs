//! Script-friendly queries over a project manifest: locating the governing
//! manifest file, resolving package fields through the workspace inheritance
//! chain, decomposing semantic versions, and delimiter-aware formatting.

pub mod delimiter;
pub mod error;
pub mod locate;
pub mod manifest;
pub mod query;
pub mod text;
pub mod version;
