//! A read-only directory wrapper that confines symlink resolution to a
//! declared root.
//!
//! Opens through [`RootDir`] resolve every symlink — absolute ones
//! included — relative to the root itself rather than the real
//! filesystem root, and refuse magic procfs-style indirection links.
//! Transient kernel signals are retried; see [`open_beneath_rdonly`].

use vstd::prelude::*;

verus! {

use crate::dirext::map_optional;
use crate::errors::Error;
use crate::errors::ErrorKind;
use crate::sys;

/// Open `path` under `d` read-only with resolution confined to `d`:
/// symlinks, absolute ones included, are reinterpreted relative to `d`,
/// and magic indirection links are refused. Transient
/// resource-unavailable and interrupted signals are retried, up to a very
/// large finite bound that gives the loop a termination measure;
/// exhausting it reports the last transient failure.
pub fn open_beneath_rdonly(d: &cap_std::fs::Dir, path: &str) -> (r: Result<
    cap_std::fs::File,
    Error,
>)
    ensures
        r matches Err(e) ==> e.kind != ErrorKind::WouldBlock && e.kind != ErrorKind::Interrupted,
{
    let mut attempts: u32 = 0;
    while attempts < u32::MAX
        invariant
            attempts <= u32::MAX,
        decreases u32::MAX - attempts,
    {
        match sys::sys_openat2_in_root(d, path) {
            Ok(fd) => {
                return Ok(sys::file_from_fd(fd));
            },
            Err(e) => {
                let k = e.kind();
                if k != ErrorKind::WouldBlock && k != ErrorKind::Interrupted {
                    return Err(e);
                }
            },
        }
        attempts += 1;
    }
    Err(Error::new(ErrorKind::Other, "interrupted too many times".to_owned()))
}

/// A wrapper for a capability directory handle whose opens use
/// root-confined resolution, so that reads may follow absolute symlinks
/// without ever leaving this root. It offers reading only; for writes,
/// reopen a plain handle with [`RootDir::reopen_cap_std`].
#[derive(Debug)]
pub struct RootDir {
    inner: cap_std::fs::Dir,
}

impl RootDir {
    /// Create a new instance from an existing handle and a relative
    /// subpath.
    pub fn new(src: &cap_std::fs::Dir, path: &str) -> Result<RootDir, Error> {
        let inner = sys::dir_open_dir(src, path)?;
        Ok(RootDir { inner })
    }

    /// Create a new instance from an ambient path, under explicit
    /// authority.
    pub fn open_ambient_root(path: &str, authority: cap_std::AmbientAuthority) -> Result<
        RootDir,
        Error,
    > {
        let inner = sys::dir_open_ambient(path, authority)?;
        Ok(RootDir { inner })
    }

    /// Open a file in this root, read-only, with symlink resolution
    /// confined to the root.
    pub fn open(&self, path: &str) -> (r: Result<cap_std::fs::File, Error>)
        ensures
            r matches Err(e) ==> e.kind != ErrorKind::WouldBlock && e.kind
                != ErrorKind::Interrupted,
    {
        open_beneath_rdonly(&self.inner, path)
    }

    /// Open a file read-only, with `Ok(None)` when it does not exist.
    pub fn open_optional(&self, path: &str) -> (r: Result<Option<cap_std::fs::File>, Error>)
        ensures
            r matches Err(e) ==> e.kind != ErrorKind::NotFound && e.kind != ErrorKind::WouldBlock
                && e.kind != ErrorKind::Interrupted,
    {
        map_optional(self.open(path))
    }

    /// Read the contents of a file into a vector.
    pub fn read(&self, path: &str) -> Result<Vec<u8>, Error> {
        let f = self.open(path)?;
        sys::file_read_to_end(&f)
    }

    /// Read the contents of a file as a string; bytes that are not UTF-8
    /// are invalid data.
    pub fn read_to_string(&self, path: &str) -> Result<String, Error> {
        let v = self.read(path)?;
        sys::bytes_to_string(v)
    }

    /// The directory entries of the root itself, without additional
    /// confinement.
    pub fn entries(&self) -> Result<Vec<cap_std::fs::DirEntry>, Error> {
        sys::dir_entries_list(&self.inner)
    }

    /// The directory entries of the target subdirectory, without
    /// additional confinement.
    pub fn read_dir(&self, path: &str) -> Result<Vec<cap_std::fs::DirEntry>, Error> {
        let sub = sys::dir_open_dir(&self.inner, path)?;
        sys::dir_entries_list(&sub)
    }

    /// A plain, unconfined handle to the same directory, for operations —
    /// writes among them — that this wrapper does not support.
    pub fn reopen_cap_std(&self) -> Result<cap_std::fs::Dir, Error> {
        sys::dir_reopen(&self.inner)
    }

    /// Wrap an existing handle as a root.
    pub fn from_dir(dir: cap_std::fs::Dir) -> RootDir {
        RootDir { inner: dir }
    }
}

impl From<cap_std::fs::Dir> for RootDir {
    /// Wrap an existing handle as a root.
    fn from(dir: cap_std::fs::Dir) -> (r: RootDir) {
        RootDir { inner: dir }
    }
}

impl vstd::std_specs::convert::FromSpecImpl<cap_std::fs::Dir> for RootDir {
    open spec fn obeys_from_spec() -> bool {
        true
    }

    closed spec fn from_spec(dir: cap_std::fs::Dir) -> RootDir {
        RootDir { inner: dir }
    }
}

} // verus!
