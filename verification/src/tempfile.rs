//! A temporary file in a capability directory that may later be given a
//! persistent name.
//!
//! Creation prefers an anonymous, directory-entry-less file, which no
//! directory scan can observe mid-write; where the filesystem does not
//! support that, it falls back to a randomly named file created with
//! exclusive-create semantics, retried on name collision up to a very
//! large finite bound. Finalization either links the file strictly under
//! its destination name (`emplace`) or renames it over the destination
//! (`replace`), and abandonment removes any scratch name that was
//! assigned.

use vstd::prelude::*;

verus! {

use crate::dirext::map_optional;
use crate::errors::Error;
use crate::errors::ErrorKind;
use crate::pathutil::split_parent_name;
use crate::pathutil::split_parent_file_name;
use crate::sys;
use crate::sys::is_scratch_name;

/// Create a temporary file with the given mode in the target directory:
/// an anonymous one where the filesystem supports it, otherwise a
/// randomly named file created exclusively, retried on collision. The
/// scratch name, when one was needed, is returned beside the file.
fn new_tempfile(d: &cap_std::fs::Dir, mode: u32) -> (r: Result<
    (cap_std::fs::File, Option<String>),
    Error,
>)
    ensures
        r matches Ok(p) ==> (p.1 matches Some(t) ==> is_scratch_name(t@)),
{
    match sys::dir_tmpfile_anon(d, mode)? {
        Some(f) => Ok((f, None)),
        None => {
            // The filesystem lacks anonymous files: fall back to a
            // named scratch file. The retry bound is enormous but
            // finite, so the loop has a termination measure and a
            // pathological filesystem cannot hang us forever.
            let mut attempts: u32 = 0;
            while attempts < u32::MAX
                invariant
                    attempts <= u32::MAX,
                decreases u32::MAX - attempts,
            {
                let name = sys::random_name();
                match sys::dir_open_exclusive_new(d, name.as_str(), mode) {
                    Ok(f) => {
                        return Ok((f, Some(name)));
                    },
                    Err(e) => {
                        if e.kind() != ErrorKind::AlreadyExists {
                            return Err(e);
                        }
                    },
                }
                attempts += 1;
            }
            Err(Error::new(ErrorKind::AlreadyExists, "too many temporary files exist".to_owned()))
        },
    }
}

/// Assign a random scratch name to a currently anonymous file by linking
/// its descriptor into the directory, retried on collision up to a very
/// large finite bound.
fn generate_name_in(subdir: &cap_std::fs::Dir, f: &cap_std::fs::File) -> (r: Result<String, Error>)
    ensures
        r matches Ok(name) ==> is_scratch_name(name@),
{
    let mut attempts: u32 = 0;
    while attempts < u32::MAX
        invariant
            attempts <= u32::MAX,
        decreases u32::MAX - attempts,
    {
        let name = sys::random_name();
        match sys::sys_linkat_fd(f, subdir, name.as_str()) {
            Ok(()) => {
                return Ok(name);
            },
            Err(e) => {
                if e.kind() != ErrorKind::AlreadyExists {
                    return Err(e);
                }
            },
        }
        attempts += 1;
    }
    Err(Error::new(ErrorKind::AlreadyExists, "too many temporary files exist".to_owned()))
}

/// A temporary file that may be given a persistent name.
#[derive(Debug)]
pub struct LinkableTempfile {
    /// The destination filename, within `subdir`.
    name: String,
    /// An owned handle to the directory that will hold the name.
    subdir: cap_std::fs::Dir,
    /// The open temporary file.
    fd: cap_std::fs::File,
    /// The scratch name currently linked to the file, if any.
    tempname: Option<String>,
}

impl LinkableTempfile {
    /// The destination filename this temporary file will be given.
    pub closed spec fn spec_name(&self) -> Seq<char> {
        self.name@
    }

    /// The scratch name currently linked to the file, if any.
    pub closed spec fn spec_tempname(&self) -> Option<Seq<char>> {
        match self.tempname {
            Some(ref t) => Some(t@),
            None => None,
        }
    }

    /// Create a temporary file whose final destination is `target`,
    /// resolved relative to `dir`. The target's parent directory is
    /// opened now; the filename is only used at finalization. The file is
    /// created owner-only; permissions are applied at finalization. A
    /// target without a filename component is invalid input.
    pub fn new_in(dir: &cap_std::fs::Dir, target: &str) -> (r: Result<LinkableTempfile, Error>)
        ensures
            split_parent_name(target@) is None ==> (r matches Err(e) && e.kind
                == ErrorKind::InvalidInput),
            r matches Ok(t) ==> (split_parent_name(target@) matches Some(pn) && t.spec_name()
                == pn.1 && (t.spec_tempname() matches Some(s) ==> is_scratch_name(s))),
    {
        Self::new_in_with_mode(dir, target, 0o600)
    }

    /// Create a temporary file whose final destination is `target`, with
    /// the given creation mode (as reduced by the process umask).
    pub(crate) fn new_in_with_mode(dir: &cap_std::fs::Dir, target: &str, mode: u32) -> (r: Result<
        LinkableTempfile,
        Error,
    >)
        ensures
            split_parent_name(target@) is None ==> (r matches Err(e) && e.kind
                == ErrorKind::InvalidInput),
            r matches Ok(t) ==> (split_parent_name(target@) matches Some(pn) && t.spec_name()
                == pn.1 && (t.spec_tempname() matches Some(s) ==> is_scratch_name(s))),
    {
        let (parent, name) = match split_parent_file_name(target) {
            Some(pn) => pn,
            None => {
                return Err(Error::new(ErrorKind::InvalidInput, "not a file name".to_owned()));
            },
        };
        let subdir = if parent.is_empty() {
            sys::dir_reopen(dir)?
        } else {
            sys::dir_open_dir(dir, parent)?
        };
        let (fd, tempname) = new_tempfile(&subdir, mode)?;
        let name = name.to_owned();
        Ok(LinkableTempfile { name, subdir, fd, tempname })
    }

    /// Atomically rename the file over its destination, leaving its
    /// permissions exactly as they are: give the file its scratch name if
    /// it never had one, then rename that name over the destination. On
    /// failure the scratch name is removed again, best-effort, and the
    /// first error is reported.
    pub(crate) fn rename_into(self) -> Result<(), Error> {
        let LinkableTempfile { name, subdir, fd, tempname } = self;
        let tempname = match tempname {
            Some(t) => t,
            None => generate_name_in(&subdir, &fd)?,
        };
        match sys::sys_renameat(&subdir, tempname.as_str(), name.as_str()) {
            Ok(()) => Ok(()),
            Err(e) => {
                abandon_scratch(&subdir, Some(tempname));
                Err(e)
            },
        }
    }

    /// The open temporary file itself.
    pub fn as_file(&self) -> &cap_std::fs::File {
        &self.fd
    }

    /// Write the whole buffer to the temporary file.
    pub fn write_all(&self, buf: &[u8]) -> Result<(), Error> {
        sys::file_write_all(&self.fd, buf)
    }

    /// The permissions the destination should get when none are chosen
    /// explicitly: those of an existing destination, or the
    /// confidentiality-preserving owner-only default.
    fn default_permissions(&self) -> Result<cap_std::fs::Permissions, Error> {
        let existing = map_optional(sys::dir_metadata(&self.subdir, self.name.as_str()))?;
        let existing = match existing {
            Some(m) => Some(sys::metadata_permissions(&m)),
            None => None,
        };
        Ok(default_permissions_choice(existing))
    }

    /// Write the file to its destination with the chosen permissions:
    /// give the file its scratch name if it never had one, then
    /// atomically rename that name over the destination. On failure the
    /// scratch name is removed again, best-effort, and the first error is
    /// reported.
    pub fn replace_with_perms(self, permissions: cap_std::fs::Permissions) -> Result<(), Error> {
        let LinkableTempfile { name, subdir, fd, tempname } = self;
        match sys::file_set_permissions(&fd, permissions) {
            Ok(()) => {},
            Err(e) => {
                abandon_scratch(&subdir, tempname);
                return Err(e);
            },
        }
        let tempname = match tempname {
            Some(t) => t,
            None => generate_name_in(&subdir, &fd)?,
        };
        match sys::sys_renameat(&subdir, tempname.as_str(), name.as_str()) {
            Ok(()) => Ok(()),
            Err(e) => {
                abandon_scratch(&subdir, Some(tempname));
                Err(e)
            },
        }
    }

    /// Write the given contents to the file, then emplace it over its
    /// destination with the chosen permissions.
    pub fn replace_contents_using_perms(
        self,
        contents: &[u8],
        permissions: cap_std::fs::Permissions,
    ) -> Result<(), Error> {
        match self.write_all(contents) {
            Ok(()) => {},
            Err(e) => {
                self.abandon();
                return Err(e);
            },
        }
        self.replace_with_perms(permissions)
    }

    /// Write the given contents to the file, then emplace it over its
    /// destination with the default permissions.
    pub fn replace_contents(self, contents: &[u8]) -> Result<(), Error> {
        match self.write_all(contents) {
            Ok(()) => {},
            Err(e) => {
                self.abandon();
                return Err(e);
            },
        }
        self.replace()
    }

    /// Write the file to its destination. If a file exists at the
    /// destination already, its permissions are kept; otherwise the
    /// owner-only default is used.
    pub fn replace(self) -> Result<(), Error> {
        let permissions = match self.default_permissions() {
            Ok(p) => p,
            Err(e) => {
                self.abandon();
                return Err(e);
            },
        };
        self.replace_with_perms(permissions)
    }

    /// Write the file to its destination, failing with an already-exists
    /// error when an entry of that name exists. The destination is never
    /// touched on failure. Any scratch name is removed, best-effort.
    pub fn emplace(self) -> Result<(), Error> {
        let LinkableTempfile { name, subdir, fd, tempname } = self;
        let r = sys::sys_linkat_fd(&fd, &subdir, name.as_str());
        abandon_scratch(&subdir, tempname);
        r
    }

    /// Give the temporary file up: remove its scratch name, if one was
    /// assigned, best-effort. An anonymous file needs no cleanup.
    pub fn abandon(self) {
        let LinkableTempfile { name: _, subdir, fd: _, tempname } = self;
        abandon_scratch(&subdir, tempname);
    }
}

/// Choose the permissions a replacement falls back to: an existing
/// destination's permissions are taken unchanged; only an absent
/// destination gets the owner-only default mode.
fn default_permissions_choice(existing: Option<cap_std::fs::Permissions>) -> (r:
    cap_std::fs::Permissions)
    ensures
        existing matches Some(p) ==> r == p,
{
    match existing {
        Some(p) => p,
        None => sys::permissions_from_mode(0o600),
    }
}

/// Remove an assigned scratch name, best-effort: a cleanup failure never
/// masks the error that led here.
fn abandon_scratch(subdir: &cap_std::fs::Dir, tempname: Option<String>) {
    match tempname {
        Some(t) => {
            let _ = sys::sys_unlinkat(subdir, t.as_str());
        },
        None => {},
    }
}

} // verus!
