//! Field model and identity resolution for a directory-listing tool.
//!
//! The `fields` module holds the tagged value types that describe one
//! directory entry: its kind, permission bits or attribute flags, link
//! count, inode, block usage, size, timestamps, ownership, and version
//! control status. They are plain data; the stat results they wrap are
//! obtained by a traversal collaborator.
//!
//! The `sid` module holds the account-identity resolution used where the
//! platform has no numeric id-to-name mapping: it validates an acquired
//! security descriptor, drives the two-phase probe/fill lookup protocol,
//! decodes the UTF-16 buffers the lookup fills, and accounts for the
//! exactly-once release of the descriptor.
//!
//! The `render` module turns a resolution outcome into styled text for
//! the owner and group columns.

pub mod fields;
pub mod render;
pub mod sid;
