//! Capability-oriented filesystem extensions.
//!
//! This library builds a set of primitives on top of an open directory
//! handle that resolves every path relative to itself:
//!
//! - "optional" operations that map a missing path to an absent value
//!   instead of an error;
//! - atomic, crash-consistent file replacement (write a new file, then
//!   rename it over the destination);
//! - a temporary file that can later be linked under a chosen name;
//! - a recursive directory walker with sorting, mount-boundary awareness
//!   and early-exit control;
//! - extended-attribute access through synthesized descriptor-relative
//!   paths;
//! - a read-only directory wrapper that confines symlink resolution to a
//!   declared root.

pub mod dirext;
pub mod dirext_utf8;
pub mod errors;
pub mod pathutil;
pub mod rootdir;
pub mod sys;
pub mod tempfile;
pub mod walk;
pub mod xattrs;

pub use xattrs::XattrList;

pub use errors::Error;
pub use errors::ErrorKind;
pub use rootdir::RootDir;
