//! Extensions for a capability directory handle.
//!
//! The operations come in three families: "optional" variants that map a
//! missing path to an absent value, helpers that create or remove
//! entries, and the atomic write family that replaces a file's content
//! through a temporary file and a rename, never exposing a half-written
//! destination.

use vstd::prelude::*;

verus! {

use crate::errors::Error;
use crate::errors::ErrorKind;
use crate::pathutil::split_parent_name;
use crate::pathutil::split_parent_file_name;
use crate::pathutil::is_confined_relpath;
use crate::sys;
use crate::tempfile::LinkableTempfile;
use crate::walk;
use crate::walk::WalkCallback;
use crate::walk::WalkConfiguration;
use crate::xattrs;
use crate::xattrs::XattrList;

/// Map a not-found error to an absent value: `Ok(v)` becomes
/// `Ok(Some(v))`, a not-found error becomes `Ok(None)`, and every other
/// error is passed through unchanged.
pub fn map_optional<R>(r: Result<R, Error>) -> (res: Result<Option<R>, Error>)
    ensures
        match r {
            Ok(v) => res matches Ok(o) && o matches Some(w) && w == v,
            Err(e) => {
                if e.kind == ErrorKind::NotFound {
                    res matches Ok(o) && o is None
                } else {
                    res matches Err(f) && f == e
                }
            },
        },
{
    match r {
        Ok(v) => Ok(Some(v)),
        Err(e) => {
            if e.kind() == ErrorKind::NotFound {
                Ok(None)
            } else {
                Err(e)
            }
        },
    }
}

/// Split a path into an opened parent directory handle and its filename
/// component. The handle is `None` when the path is a bare filename to be
/// resolved in `d` itself. A path without a filename component is invalid
/// input.
pub fn subdir_of<'a>(d: &cap_std::fs::Dir, p: &'a str) -> (r: Result<
    (Option<cap_std::fs::Dir>, &'a str),
    Error,
>)
    ensures
        split_parent_name(p@) is None ==> (r matches Err(e) && e.kind == ErrorKind::InvalidInput),
        r matches Ok(pair) ==> (split_parent_name(p@) matches Some(sn) && sn.1 == pair.1@ && (
        pair.0 is Some <==> sn.0.len() > 0)),
{
    match split_parent_file_name(p) {
        None => Err(Error::new(ErrorKind::InvalidInput, "not a file name".to_owned())),
        Some((parent, name)) => {
            if parent.is_empty() {
                Ok((None, name))
            } else {
                let sub = sys::dir_open_dir(d, parent)?;
                Ok((Some(sub), name))
            }
        },
    }
}

/// Interpret a mount probe: the answer is known only when the kernel
/// filled the mount-root attribute, and absent when it did not or when
/// the probe itself is unsupported.
pub open spec fn mount_flag_of(probe: Option<(bool, bool)>) -> Option<bool> {
    match probe {
        Some(p) => if p.0 {
            Some(p.1)
        } else {
            None
        },
        None => None,
    }
}

/// Decide what a mount probe means, as [`mount_flag_of`] states.
pub fn interpret_mount_probe(probe: Option<(bool, bool)>) -> (r: Option<bool>)
    ensures
        r == mount_flag_of(probe),
{
    match probe {
        Some((known, value)) => if known {
            Some(value)
        } else {
            None
        },
        None => None,
    }
}

/// How a removal proceeds after probing what the path holds.
#[derive(Clone, Copy, Debug, PartialEq, Eq, Structural)]
pub enum RemovalAction {
    /// The path names nothing: remove nothing and report `false`.
    ReportAbsent,
    /// The path names a directory: remove the whole subtree and report
    /// `true`.
    RemoveSubtree,
    /// The path names a file or symlink: remove that single entry, never
    /// following it, and report `true`.
    RemoveEntry,
}

/// What removing a path means, given what a symlink-preserving probe of
/// it found: an absent path is reported as no removal; a directory is
/// removed with its whole subtree; anything else — a symlink included,
/// never followed — is removed as a single entry.
pub open spec fn removal_action_spec(present: bool, is_dir: bool) -> RemovalAction {
    if !present {
        RemovalAction::ReportAbsent
    } else if is_dir {
        RemovalAction::RemoveSubtree
    } else {
        RemovalAction::RemoveEntry
    }
}

/// Decide how to remove a path, exactly as [`removal_action_spec`]
/// states.
pub fn removal_action(present: bool, is_dir: bool) -> (a: RemovalAction)
    ensures
        a == removal_action_spec(present, is_dir),
{
    if !present {
        RemovalAction::ReportAbsent
    } else if is_dir {
        RemovalAction::RemoveSubtree
    } else {
        RemovalAction::RemoveEntry
    }
}

/// Open the target without crossing a filesystem mount boundary, with
/// `Ok(None)` when the target lies across one. Transient signals are
/// retried, up to a very large finite bound that gives the loop a
/// termination measure.
fn openat2_noxdev_retry(d: &cap_std::fs::Dir, path: &str) -> (r: Result<
    Option<rustix::fd::OwnedFd>,
    Error,
>)
    ensures
        r matches Err(e) ==> e.kind != ErrorKind::CrossesDevices && e.kind != ErrorKind::WouldBlock
            && e.kind != ErrorKind::Interrupted,
{
    let mut attempts: u32 = 0;
    while attempts < u32::MAX
        invariant
            attempts <= u32::MAX,
        decreases u32::MAX - attempts,
    {
        match sys::sys_openat2_noxdev(d, path) {
            Ok(fd) => {
                return Ok(Some(fd));
            },
            Err(e) => {
                let k = e.kind();
                if k == ErrorKind::CrossesDevices {
                    return Ok(None);
                } else if k != ErrorKind::WouldBlock && k != ErrorKind::Interrupted {
                    return Err(e);
                }
            },
        }
        attempts += 1;
    }
    Err(Error::new(ErrorKind::Other, "interrupted too many times".to_owned()))
}

/// Open the target directory without crossing a filesystem mount
/// boundary, with `Ok(None)` when the target lies across one: that case
/// is never reported as an error, and the transient categories are
/// retried away.
pub(crate) fn impl_open_dir_noxdev(d: &cap_std::fs::Dir, path: &str) -> (r: Result<
    Option<cap_std::fs::Dir>,
    Error,
>)
    ensures
        r matches Err(e) ==> e.kind != ErrorKind::CrossesDevices && e.kind != ErrorKind::WouldBlock
            && e.kind != ErrorKind::Interrupted,
{
    match openat2_noxdev_retry(d, path)? {
        Some(fd) => {
            match sys::dir_reopen_from_fd(&fd) {
                Ok(dir) => Ok(Some(dir)),
                Err(e) => {
                    // Reopening a descriptor that is already open resolves
                    // only ".", so it cannot cross a mount boundary, block
                    // or be meaningfully interrupted; normalize those
                    // categories so the contract above can rule them out.
                    let k = e.kind();
                    if k == ErrorKind::CrossesDevices || k == ErrorKind::WouldBlock || k
                        == ErrorKind::Interrupted {
                        Err(e.with_kind(ErrorKind::Other))
                    } else {
                        Err(e)
                    }
                },
            }
        },
        None => Ok(None),
    }
}

/// Extension operations on [`cap_std::fs::Dir`].
pub trait CapStdExtDirExt {
    /// Open a file read-only, with `Ok(None)` when it does not exist.
    fn open_optional(&self, path: &str) -> (r: Result<Option<cap_std::fs::File>, Error>)
        ensures
            r matches Err(e) ==> e.kind != ErrorKind::NotFound,
    ;

    /// Open a directory, with `Ok(None)` when it does not exist.
    fn open_dir_optional(&self, path: &str) -> (r: Result<Option<cap_std::fs::Dir>, Error>)
        ensures
            r matches Err(e) ==> e.kind != ErrorKind::NotFound,
    ;

    /// Read a file's contents, with `Ok(None)` when it does not exist.
    fn read_optional(&self, path: &str) -> Result<Option<Vec<u8>>, Error>;

    /// Read a file's contents as a string, with `Ok(None)` when it does
    /// not exist; bytes that are not UTF-8 are invalid data.
    fn read_to_string_optional(&self, path: &str) -> Result<Option<String>, Error>;

    /// Open a subdirectory as a root that confines symlink resolution
    /// within itself.
    fn open_dir_rooted_ext(&self, path: &str) -> Result<crate::rootdir::RootDir, Error>;

    /// Open the target directory, with `Ok(None)` when opening it would
    /// cross a filesystem mount boundary: that case is never an error, and
    /// transient signals are retried away.
    fn open_dir_noxdev(&self, path: &str) -> (r: Result<Option<cap_std::fs::Dir>, Error>)
        ensures
            r matches Err(e) ==> e.kind != ErrorKind::CrossesDevices && e.kind
                != ErrorKind::WouldBlock && e.kind != ErrorKind::Interrupted,
    ;

    /// Create the target directory, with `Ok(false)` and no action when a
    /// directory already exists there. An existing entry that is not
    /// itself a directory — a symlink included, even one pointing at a
    /// directory — is an error. A name collision is always resolved, to
    /// `Ok(false)` or to that error, so an already-exists error is never
    /// reported.
    fn ensure_dir_with(&self, p: &str, builder: &cap_std::fs::DirBuilder) -> (r: Result<
        bool,
        Error,
    >)
        ensures
            r matches Err(e) ==> e.kind != ErrorKind::AlreadyExists,
    ;

    /// Gather metadata, following symlinks, with `Ok(None)` when the path
    /// does not exist.
    fn metadata_optional(&self, path: &str) -> (r: Result<Option<cap_std::fs::Metadata>, Error>)
        ensures
            r matches Err(e) ==> e.kind != ErrorKind::NotFound,
    ;

    /// Gather metadata without following a final symlink, with `Ok(None)`
    /// when the path does not exist.
    fn symlink_metadata_optional(&self, path: &str) -> (r: Result<
        Option<cap_std::fs::Metadata>,
        Error,
    >)
        ensures
            r matches Err(e) ==> e.kind != ErrorKind::NotFound,
    ;

    /// Remove a file, with `Ok(false)` when it does not exist.
    fn remove_file_optional(&self, path: &str) -> (r: Result<bool, Error>)
        ensures
            r matches Err(e) ==> e.kind != ErrorKind::NotFound,
    ;

    /// Remove a file, symlink or directory subtree, with `Ok(false)` when
    /// the path does not exist and `Ok(true)` after a removal. What the
    /// path holds is probed without following a final symlink, and the
    /// probe's outcome is acted on exactly as [`removal_action_spec`]
    /// states.
    fn remove_all_optional(&self, path: &str) -> Result<bool, Error>;

    /// Set the access and modification times to the current time, without
    /// following a final symlink.
    fn update_timestamps(&self, path: &str) -> Result<(), Error>;

    /// Atomically write a file by calling the provided writer against a
    /// temporary file, then renaming it over the destination: the
    /// destination always holds either its old or its new content, never
    /// a truncated mixture. When the destination is already a regular
    /// file, its permissions are kept. A destination without a filename
    /// component is invalid input.
    fn atomic_replace_with<T, F: FnOnce(&LinkableTempfile) -> Result<T, Error>>(
        &self,
        destname: &str,
        f: F,
    ) -> (r: Result<T, Error>)
        requires
            forall|t: &LinkableTempfile| call_requires(f, (t,)),
        ensures
            split_parent_name(destname@) is None ==> (r matches Err(e) && e.kind
                == ErrorKind::InvalidInput),
            r matches Ok(v) ==> (exists|t: &LinkableTempfile|
                call_ensures(f, (t,), Result::<T, Error>::Ok(v))),
    ;

    /// Atomically write the provided contents to a file.
    fn atomic_write(&self, destname: &str, contents: &[u8]) -> (r: Result<(), Error>)
        ensures
            split_parent_name(destname@) is None ==> (r matches Err(e) && e.kind
                == ErrorKind::InvalidInput),
    ;

    /// Atomically write the provided contents to a file with the given
    /// permissions, applied before any content is written so that secret
    /// data is never transiently readable.
    fn atomic_write_with_perms(
        &self,
        destname: &str,
        contents: &[u8],
        perms: cap_std::fs::Permissions,
    ) -> (r: Result<(), Error>)
        ensures
            split_parent_name(destname@) is None ==> (r matches Err(e) && e.kind
                == ErrorKind::InvalidInput),
    ;

    /// Reopen the directory as a plain descriptor without `O_PATH`, on
    /// which syncing and attribute calls work.
    fn reopen_as_ownedfd(&self) -> Result<rustix::fd::OwnedFd, Error>;

    /// Whether the target is a mountpoint: `Some` only when the kernel
    /// answers definitively, `None` when it cannot say.
    fn is_mountpoint(&self, path: &str) -> Result<Option<bool>, Error>;

    /// Get the value of an extended attribute, with `Ok(None)` when the
    /// attribute is not set. The path must be relative and free of `..`
    /// components.
    fn getxattr(&self, path: &str, key: &str) -> (r: Result<Option<Vec<u8>>, Error>)
        ensures
            !is_confined_relpath(path@) ==> (r matches Err(e) && e.kind
                == ErrorKind::PermissionDenied),
            r matches Err(e) ==> e.kind != ErrorKind::NoData,
    ;

    /// List the extended attribute names of the path, which must be
    /// relative and free of `..` components.
    fn listxattrs(&self, path: &str) -> (r: Result<XattrList, Error>)
        ensures
            !is_confined_relpath(path@) ==> (r matches Err(e) && e.kind
                == ErrorKind::PermissionDenied),
    ;

    /// Set the value of an extended attribute of the path, which must be
    /// relative and free of `..` components.
    fn setxattr(&self, path: &str, key: &str, value: &[u8]) -> (r: Result<(), Error>)
        ensures
            !is_confined_relpath(path@) ==> (r matches Err(e) && e.kind
                == ErrorKind::PermissionDenied),
    ;

    /// Recursively walk the directory. Per entry the callback decides how
    /// to go on; its answer is interpreted as
    /// [`crate::walk::walk_step_spec`] states: a break on a directory
    /// skips that directory's subtree only, a break on anything else
    /// aborts the whole walk.
    fn walk<C: WalkCallback>(&self, config: &WalkConfiguration, callback: &mut C) -> Result<
        (),
        Error,
    >;
}

impl CapStdExtDirExt for cap_std::fs::Dir {
    fn open_optional(&self, path: &str) -> (r: Result<Option<cap_std::fs::File>, Error>) {
        map_optional(sys::dir_open(self, path))
    }

    fn open_dir_optional(&self, path: &str) -> (r: Result<Option<cap_std::fs::Dir>, Error>) {
        map_optional(sys::dir_open_dir(self, path))
    }

    fn read_optional(&self, path: &str) -> Result<Option<Vec<u8>>, Error> {
        match map_optional(sys::dir_open(self, path))? {
            Some(f) => {
                let v = sys::file_read_to_end(&f)?;
                Ok(Some(v))
            },
            None => Ok(None),
        }
    }

    fn read_to_string_optional(&self, path: &str) -> Result<Option<String>, Error> {
        match self.read_optional(path)? {
            Some(v) => {
                let s = sys::bytes_to_string(v)?;
                Ok(Some(s))
            },
            None => Ok(None),
        }
    }

    fn open_dir_rooted_ext(&self, path: &str) -> Result<crate::rootdir::RootDir, Error> {
        crate::rootdir::RootDir::new(self, path)
    }

    fn open_dir_noxdev(&self, path: &str) -> (r: Result<Option<cap_std::fs::Dir>, Error>) {
        impl_open_dir_noxdev(self, path)
    }

    fn ensure_dir_with(&self, p: &str, builder: &cap_std::fs::DirBuilder) -> (r: Result<
        bool,
        Error,
    >) {
        match sys::dir_create_dir_with(self, p, builder) {
            Ok(()) => Ok(true),
            Err(e) => {
                if e.kind() == ErrorKind::AlreadyExists {
                    let meta = match sys::dir_symlink_metadata(self, p) {
                        Ok(m) => m,
                        Err(e2) => {
                            // A read-only metadata probe cannot collide
                            // with an existing name; normalize that
                            // category so the contract above can rule it
                            // out.
                            if e2.kind() == ErrorKind::AlreadyExists {
                                return Err(e2.with_kind(ErrorKind::Other));
                            }
                            return Err(e2);
                        },
                    };
                    if !sys::metadata_is_dir(&meta) {
                        return Err(
                            Error::new(ErrorKind::Other, "found non-directory".to_owned()),
                        );
                    }
                    Ok(false)
                } else {
                    Err(e)
                }
            },
        }
    }

    fn metadata_optional(&self, path: &str) -> (r: Result<Option<cap_std::fs::Metadata>, Error>) {
        map_optional(sys::dir_metadata(self, path))
    }

    fn symlink_metadata_optional(&self, path: &str) -> (r: Result<
        Option<cap_std::fs::Metadata>,
        Error,
    >) {
        map_optional(sys::dir_symlink_metadata(self, path))
    }

    fn remove_file_optional(&self, path: &str) -> (r: Result<bool, Error>) {
        match sys::dir_remove_file(self, path) {
            Ok(()) => Ok(true),
            Err(e) => {
                if e.kind() == ErrorKind::NotFound {
                    Ok(false)
                } else {
                    Err(e)
                }
            },
        }
    }

    fn remove_all_optional(&self, path: &str) -> Result<bool, Error> {
        let meta = self.symlink_metadata_optional(path)?;
        let is_dir = match &meta {
            Some(m) => sys::metadata_is_dir(m),
            None => false,
        };
        match removal_action(meta.is_some(), is_dir) {
            RemovalAction::ReportAbsent => Ok(false),
            RemovalAction::RemoveSubtree => {
                sys::dir_remove_dir_all(self, path)?;
                Ok(true)
            },
            RemovalAction::RemoveEntry => {
                sys::dir_remove_file(self, path)?;
                Ok(true)
            },
        }
    }

    fn update_timestamps(&self, path: &str) -> Result<(), Error> {
        sys::sys_utimensat_now(self, path)
    }

    fn atomic_replace_with<T, F: FnOnce(&LinkableTempfile) -> Result<T, Error>>(
        &self,
        destname: &str,
        f: F,
    ) -> (r: Result<T, Error>) {
        let (sub, name) = subdir_of(self, destname)?;
        let sub: &cap_std::fs::Dir = match &sub {
            Some(s) => s,
            None => self,
        };
        // When the destination is already a plain file, keep its mode by
        // default; a symlink's mode is never inherited, so an
        // attacker-controlled target cannot choose it.
        let existing = map_optional(sys::dir_symlink_metadata(sub, name))?;
        let existing_perms = match existing {
            Some(m) => if sys::metadata_is_file(&m) {
                Some(sys::metadata_permissions(&m))
            } else {
                None
            },
            None => None,
        };
        // The temporary file starts with the filesystem-default mode (as
        // the process umask leaves it), like any newly created file.
        let t = LinkableTempfile::new_in_with_mode(sub, name, 0o666)?;
        if let Some(p) = existing_perms {
            match sys::file_set_permissions(t.as_file(), p) {
                Ok(()) => {},
                Err(e) => {
                    t.abandon();
                    return Err(e);
                },
            }
        }
        // Generate the content; a writer failure abandons the temporary
        // file and is reported untouched, never masked by cleanup.
        let v = match f(&t) {
            Ok(v) => v,
            Err(e) => {
                t.abandon();
                return Err(e);
            },
        };
        // Flush the new content to disk before it becomes visible.
        match sys::file_sync_all(t.as_file()) {
            Ok(()) => {},
            Err(e) => {
                t.abandon();
                return Err(e);
            },
        }
        // The rename is atomic: the destination name always refers to the
        // old or the new file. The file's permissions are left exactly as
        // the steps above chose them.
        t.rename_into()?;
        // Make the rename itself durable.
        let dot = sys::dir_open(sub, ".")?;
        sys::file_sync_all(&dot)?;
        Ok(v)
    }

    fn atomic_write(&self, destname: &str, contents: &[u8]) -> (r: Result<(), Error>) {
        self.atomic_replace_with(destname, |t: &LinkableTempfile| -> Result<(), Error>
            { t.write_all(contents) })
    }

    fn atomic_write_with_perms(
        &self,
        destname: &str,
        contents: &[u8],
        perms: cap_std::fs::Permissions,
    ) -> (r: Result<(), Error>) {
        self.atomic_replace_with(destname, move |t: &LinkableTempfile| -> Result<(), Error>
            {
                // Until the chosen permissions are applied, keep the data
                // owner-only in case it is secret.
                let restrictive = sys::permissions_from_mode(0o600);
                sys::file_set_permissions(t.as_file(), restrictive)?;
                t.write_all(contents)?;
                sys::file_set_permissions(t.as_file(), perms)
            })
    }

    fn reopen_as_ownedfd(&self) -> Result<rustix::fd::OwnedFd, Error> {
        sys::sys_openat_dir_rdonly(self)
    }

    fn is_mountpoint(&self, path: &str) -> Result<Option<bool>, Error> {
        let probe = sys::sys_statx_mount_probe(self, path)?;
        Ok(interpret_mount_probe(probe))
    }

    fn getxattr(&self, path: &str, key: &str) -> (r: Result<Option<Vec<u8>>, Error>) {
        xattrs::impl_getxattr(self, path, key)
    }

    fn listxattrs(&self, path: &str) -> (r: Result<XattrList, Error>) {
        xattrs::impl_listxattrs(self, path)
    }

    fn setxattr(&self, path: &str, key: &str, value: &[u8]) -> (r: Result<(), Error>) {
        xattrs::impl_setxattr(self, path, key, value)
    }

    fn walk<C: WalkCallback>(&self, config: &WalkConfiguration, callback: &mut C) -> Result<
        (),
        Error,
    > {
        walk::walk_dir(self, config, callback)
    }
}

} // verus!
