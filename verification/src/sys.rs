//! The trusted boundary to the operating system.
//!
//! This module declares the outside types the library's signatures carry
//! and wraps every call into `cap_std`, `rustix` and `uuid` that the
//! verified logic makes. Each wrapper converts between the library's
//! plain values and the outside crate's types and states only what the
//! outside function's documentation promises.

use vstd::prelude::*;

use cap_std::fs::OpenOptionsExt;
use cap_std::fs::PermissionsExt;
use rustix::fd::AsFd;
use rustix::fd::AsRawFd;
use rustix::fs::AtFlags;
use rustix::fs::Mode;
use rustix::fs::OFlags;
use rustix::fs::ResolveFlags;
use rustix::fs::StatxAttributes;
use rustix::fs::StatxFlags;
use rustix::fs::Timespec;
use rustix::fs::Timestamps;
use rustix::fs::UTIME_NOW;
use rustix::io::Errno;
use std::io::Read;
use std::io::Write;

verus! {

use crate::errors::Error;
use crate::errors::ErrorKind;
use vstd::utf8::valid_utf8;

#[verifier::external_type_specification]
#[verifier::external_body]
pub struct ExDir(cap_std::fs::Dir);

#[verifier::external_type_specification]
#[verifier::external_body]
pub struct ExFile(cap_std::fs::File);

#[verifier::external_type_specification]
#[verifier::external_body]
pub struct ExMetadata(cap_std::fs::Metadata);

#[verifier::external_type_specification]
#[verifier::external_body]
pub struct ExPermissions(cap_std::fs::Permissions);

#[verifier::external_type_specification]
#[verifier::external_body]
pub struct ExDirBuilder(cap_std::fs::DirBuilder);

#[verifier::external_type_specification]
#[verifier::external_body]
pub struct ExDirEntry(cap_std::fs::DirEntry);

#[verifier::external_type_specification]
#[verifier::external_body]
pub struct ExFileType(cap_std::fs::FileType);

#[verifier::external_type_specification]
#[verifier::external_body]
pub struct ExAmbientAuthority(cap_std::AmbientAuthority);

#[verifier::external_type_specification]
#[verifier::external_body]
pub struct ExDirUtf8(cap_std::fs_utf8::Dir);

#[verifier::external_type_specification]
#[verifier::external_body]
pub struct ExFileUtf8(cap_std::fs_utf8::File);

#[verifier::external_type_specification]
#[verifier::external_body]
pub struct ExDirEntryUtf8(cap_std::fs_utf8::DirEntry);

#[verifier::external_type_specification]
#[verifier::external_body]
pub struct ExOwnedFd(rustix::fd::OwnedFd);

#[verifier::external_type_specification]
#[verifier::external_body]
pub struct ExIoError(std::io::Error);

#[verifier::external_type_specification]
#[verifier::external_body]
pub struct ExErrno(rustix::io::Errno);

/// Relies on `std::io::Error::kind` and `ToString::to_string`: carries
/// the failure's category and message over into the library's error type.
#[verifier::external_body]
pub fn error_from_io(e: std::io::Error) -> Error {
    let kind = match e.kind() {
        std::io::ErrorKind::NotFound => ErrorKind::NotFound,
        std::io::ErrorKind::AlreadyExists => ErrorKind::AlreadyExists,
        std::io::ErrorKind::InvalidInput => ErrorKind::InvalidInput,
        std::io::ErrorKind::PermissionDenied => ErrorKind::PermissionDenied,
        std::io::ErrorKind::Unsupported => ErrorKind::Unsupported,
        std::io::ErrorKind::WouldBlock => ErrorKind::WouldBlock,
        std::io::ErrorKind::Interrupted => ErrorKind::Interrupted,
        std::io::ErrorKind::InvalidData => ErrorKind::InvalidData,
        _ => ErrorKind::Other,
    };
    Error::new(kind, e.to_string())
}

/// Relies on `rustix::io::Errno`'s constants and `Display`: carries the
/// failure's category and message over into the library's error type.
#[verifier::external_body]
pub fn error_from_errno(e: rustix::io::Errno) -> Error {
    let kind = match e {
        Errno::NOENT => ErrorKind::NotFound,
        Errno::EXIST => ErrorKind::AlreadyExists,
        Errno::INVAL => ErrorKind::InvalidInput,
        Errno::ACCESS | Errno::PERM => ErrorKind::PermissionDenied,
        Errno::OPNOTSUPP | Errno::NOSYS => ErrorKind::Unsupported,
        Errno::AGAIN => ErrorKind::WouldBlock,
        Errno::INTR => ErrorKind::Interrupted,
        Errno::XDEV => ErrorKind::CrossesDevices,
        Errno::NODATA => ErrorKind::NoData,
        Errno::RANGE => ErrorKind::ResultTooLarge,
        _ => ErrorKind::Other,
    };
    Error::new(kind, e.to_string())
}

/// Relies on `cap_std::fs::Dir::open`: opens a file read-only, relative
/// to the directory, never escaping it.
#[verifier::external_body]
pub fn dir_open(d: &cap_std::fs::Dir, path: &str) -> Result<cap_std::fs::File, Error> {
    d.open(path).map_err(error_from_io)
}

/// Relies on `cap_std::fs::Dir::open_dir`: opens a subdirectory, relative
/// to the directory, never escaping it.
#[verifier::external_body]
pub fn dir_open_dir(d: &cap_std::fs::Dir, path: &str) -> Result<cap_std::fs::Dir, Error> {
    d.open_dir(path).map_err(error_from_io)
}

/// Relies on `cap_std::fs::Dir::metadata`: queries metadata, following
/// symlinks.
#[verifier::external_body]
pub fn dir_metadata(d: &cap_std::fs::Dir, path: &str) -> Result<cap_std::fs::Metadata, Error> {
    d.metadata(path).map_err(error_from_io)
}

/// Relies on `cap_std::fs::Dir::symlink_metadata`: queries metadata
/// without following a final symlink.
#[verifier::external_body]
pub fn dir_symlink_metadata(d: &cap_std::fs::Dir, path: &str) -> Result<
    cap_std::fs::Metadata,
    Error,
> {
    d.symlink_metadata(path).map_err(error_from_io)
}

/// Relies on `cap_std::fs::Dir::remove_file`: removes a file or symlink,
/// not following it.
#[verifier::external_body]
pub fn dir_remove_file(d: &cap_std::fs::Dir, path: &str) -> Result<(), Error> {
    d.remove_file(path).map_err(error_from_io)
}

/// Relies on `cap_std::fs::Dir::remove_dir_all`: removes a directory and
/// everything under it.
#[verifier::external_body]
pub fn dir_remove_dir_all(d: &cap_std::fs::Dir, path: &str) -> Result<(), Error> {
    d.remove_dir_all(path).map_err(error_from_io)
}

/// Relies on `cap_std::fs::Dir::create_dir_with`: creates a directory
/// with the builder's options; fails with an already-exists error when an
/// entry of that name exists.
#[verifier::external_body]
pub fn dir_create_dir_with(
    d: &cap_std::fs::Dir,
    path: &str,
    builder: &cap_std::fs::DirBuilder,
) -> Result<(), Error> {
    d.create_dir_with(path, builder).map_err(error_from_io)
}

/// Relies on `cap_std::fs::Dir::entries` and `ReadDir`'s iteration: the
/// directory's entries, in an order the filesystem chooses.
#[verifier::external_body]
pub fn dir_entries_list(d: &cap_std::fs::Dir) -> Result<Vec<cap_std::fs::DirEntry>, Error> {
    let entries = d.entries().map_err(error_from_io)?;
    let mut out = Vec::new();
    for e in entries {
        out.push(e.map_err(error_from_io)?);
    }
    Ok(out)
}

/// Relies on `cap_std::fs::Dir::open_ambient_dir`: opens a directory by
/// an ambient path, under explicit authority.
#[verifier::external_body]
pub fn dir_open_ambient(path: &str, authority: cap_std::AmbientAuthority) -> Result<
    cap_std::fs::Dir,
    Error,
> {
    cap_std::fs::Dir::open_ambient_dir(path, authority).map_err(error_from_io)
}

/// Relies on `cap_std::fs::Dir::reopen_dir`: a new directory handle for
/// the directory an open handle refers to.
#[verifier::external_body]
pub fn dir_reopen(d: &cap_std::fs::Dir) -> Result<cap_std::fs::Dir, Error> {
    cap_std::fs::Dir::reopen_dir(&d.as_fd()).map_err(error_from_io)
}

/// Relies on `cap_std::fs::Dir::reopen_dir`: a directory handle for the
/// directory an open descriptor refers to.
#[verifier::external_body]
pub fn dir_reopen_from_fd(fd: &rustix::fd::OwnedFd) -> Result<cap_std::fs::Dir, Error> {
    cap_std::fs::Dir::reopen_dir(fd).map_err(error_from_io)
}

/// Relies on `cap_std::fs::Dir::open_with` with `create_new`: creates a
/// file with the given mode, failing with an already-exists error when an
/// entry of that name exists.
#[verifier::external_body]
pub fn dir_open_exclusive_new(d: &cap_std::fs::Dir, name: &str, mode: u32) -> Result<
    cap_std::fs::File,
    Error,
> {
    let mut opts = cap_std::fs::OpenOptions::new();
    opts.read(true);
    opts.write(true);
    opts.create_new(true);
    opts.mode(mode);
    d.open_with(name, &opts).map_err(error_from_io)
}

/// Relies on `rustix::fs::openat` with `O_TMPFILE`: an anonymous file in
/// the directory with the given mode (as reduced by the process umask),
/// readable and writable; `Ok(None)` when the filesystem does not support
/// anonymous files.
#[verifier::external_body]
pub fn dir_tmpfile_anon(d: &cap_std::fs::Dir, mode: u32) -> Result<
    Option<cap_std::fs::File>,
    Error,
> {
    let oflags = OFlags::CLOEXEC | OFlags::TMPFILE | OFlags::RDWR;
    match rustix::fs::openat(d, ".", oflags, Mode::from_raw_mode(mode)) {
        Ok(fd) => Ok(Some(cap_std::fs::File::from(fd))),
        Err(rustix::io::Errno::OPNOTSUPP) => Ok(None),
        Err(e) => Err(error_from_errno(e)),
    }
}

/// Relies on `AsRawFd::as_raw_fd`: the raw descriptor number of an open
/// directory handle, which for an open handle is nonnegative.
#[verifier::external_body]
pub fn dir_raw_fd(d: &cap_std::fs::Dir) -> (fd: i32)
    ensures
        fd >= 0,
{
    d.as_fd().as_raw_fd()
}

/// Relies on `cap_std::fs::DirEntry::file_name` and
/// `OsString::into_string`: the entry's name; a name that is not UTF-8 is
/// reported as invalid data.
#[verifier::external_body]
pub fn entry_file_name(e: &cap_std::fs::DirEntry) -> Result<String, Error> {
    match e.file_name().into_string() {
        Ok(s) => Ok(s),
        Err(_) => Err(Error::new(ErrorKind::InvalidData, "filename is not UTF-8".to_owned())),
    }
}

/// Relies on `cap_std::fs::DirEntry::file_type`: the entry's file type.
#[verifier::external_body]
pub fn entry_file_type(e: &cap_std::fs::DirEntry) -> Result<cap_std::fs::FileType, Error> {
    e.file_type().map_err(error_from_io)
}

/// Relies on `cap_std::fs::DirEntry::open_dir`: opens the entry as a
/// directory.
#[verifier::external_body]
pub fn entry_open_dir(e: &cap_std::fs::DirEntry) -> Result<cap_std::fs::Dir, Error> {
    e.open_dir().map_err(error_from_io)
}

/// Relies on `cap_primitives::fs::FileType::is_dir`.
#[verifier::external_body]
pub fn file_type_is_dir(t: &cap_std::fs::FileType) -> bool {
    t.is_dir()
}

/// Relies on `cap_std::fs::Metadata::is_dir`.
#[verifier::external_body]
pub fn metadata_is_dir(m: &cap_std::fs::Metadata) -> bool {
    m.is_dir()
}

/// Relies on `cap_std::fs::Metadata::is_file`.
#[verifier::external_body]
pub fn metadata_is_file(m: &cap_std::fs::Metadata) -> bool {
    m.is_file()
}

/// Relies on `cap_std::fs::Metadata::permissions`.
#[verifier::external_body]
pub fn metadata_permissions(m: &cap_std::fs::Metadata) -> cap_std::fs::Permissions {
    m.permissions()
}

/// Relies on `cap_primitives::fs::PermissionsExt::from_mode`: the
/// permissions value for a Unix mode.
#[verifier::external_body]
pub fn permissions_from_mode(mode: u32) -> cap_std::fs::Permissions {
    cap_std::fs::Permissions::from_mode(mode)
}

/// Relies on `cap_std::fs::File::sync_all`: flushes the file's data and
/// metadata to disk.
#[verifier::external_body]
pub fn file_sync_all(f: &cap_std::fs::File) -> Result<(), Error> {
    f.sync_all().map_err(error_from_io)
}

/// Relies on `cap_std::fs::File::set_permissions`.
#[verifier::external_body]
pub fn file_set_permissions(f: &cap_std::fs::File, perms: cap_std::fs::Permissions) -> Result<
    (),
    Error,
> {
    f.set_permissions(perms).map_err(error_from_io)
}

/// Relies on `std::io::Write::write_all` for `&cap_std::fs::File`: writes
/// the whole buffer at the file's cursor or reports the failure.
#[verifier::external_body]
pub fn file_write_all(f: &cap_std::fs::File, data: &[u8]) -> Result<(), Error> {
    let mut w = f;
    w.write_all(data).map_err(error_from_io)
}

/// Relies on `std::io::Read::read_to_end` for `&cap_std::fs::File`: reads
/// the rest of the file.
#[verifier::external_body]
pub fn file_read_to_end(f: &cap_std::fs::File) -> Result<Vec<u8>, Error> {
    let mut r = f;
    let mut out = Vec::new();
    r.read_to_end(&mut out).map_err(error_from_io)?;
    Ok(out)
}

/// Relies on `cap_std::fs::File`'s `From<OwnedFd>` conversion.
#[verifier::external_body]
pub fn file_from_fd(fd: rustix::fd::OwnedFd) -> cap_std::fs::File {
    cap_std::fs::File::from(fd)
}

/// Relies on `rustix::fs::openat2` with `RESOLVE_IN_ROOT` and
/// `RESOLVE_NO_MAGICLINKS`: opens read-only, reinterpreting absolute
/// symlinks relative to the directory and refusing magic links.
#[verifier::external_body]
pub fn sys_openat2_in_root(d: &cap_std::fs::Dir, path: &str) -> Result<rustix::fd::OwnedFd, Error> {
    rustix::fs::openat2(
        d,
        path,
        OFlags::CLOEXEC | OFlags::RDONLY,
        Mode::empty(),
        ResolveFlags::IN_ROOT | ResolveFlags::NO_MAGICLINKS,
    ).map_err(error_from_errno)
}

/// Relies on `rustix::fs::openat2` with `RESOLVE_BENEATH` and
/// `RESOLVE_NO_XDEV`: opens a directory, not following a final symlink,
/// failing with a cross-device error when resolution would cross a mount
/// boundary.
#[verifier::external_body]
pub fn sys_openat2_noxdev(d: &cap_std::fs::Dir, path: &str) -> Result<rustix::fd::OwnedFd, Error> {
    rustix::fs::openat2(
        d,
        path,
        OFlags::CLOEXEC | OFlags::DIRECTORY | OFlags::NOFOLLOW,
        Mode::empty(),
        ResolveFlags::NO_XDEV | ResolveFlags::BENEATH,
    ).map_err(error_from_errno)
}

/// Relies on `rustix::fs::linkat` with `AT_SYMLINK_FOLLOW` through the
/// file's `/proc/self/fd` entry: gives the open anonymous file the name
/// `name` in `dir`, failing with an already-exists error when an entry of
/// that name exists.
#[verifier::external_body]
pub fn sys_linkat_fd(f: &cap_std::fs::File, dir: &cap_std::fs::Dir, name: &str) -> Result<
    (),
    Error,
> {
    let proc_path = format!("/proc/self/fd/{}", f.as_fd().as_raw_fd());
    rustix::fs::linkat(rustix::fs::CWD, proc_path, dir, name, AtFlags::SYMLINK_FOLLOW).map_err(
        error_from_errno,
    )
}

/// Relies on `rustix::fs::renameat`: atomically renames `from` over `to`
/// within the directory.
#[verifier::external_body]
pub fn sys_renameat(dir: &cap_std::fs::Dir, from: &str, to: &str) -> Result<(), Error> {
    rustix::fs::renameat(dir, from, dir, to).map_err(error_from_errno)
}

/// Relies on `rustix::fs::unlinkat`: removes the named entry, not
/// following a symlink.
#[verifier::external_body]
pub fn sys_unlinkat(dir: &cap_std::fs::Dir, name: &str) -> Result<(), Error> {
    rustix::fs::unlinkat(dir, name, AtFlags::empty()).map_err(error_from_errno)
}

/// Relies on `rustix::fs::utimensat` with `UTIME_NOW` and
/// `AT_SYMLINK_NOFOLLOW`: sets the entry's access and modification times
/// to the current time without following a final symlink.
#[verifier::external_body]
pub fn sys_utimensat_now(d: &cap_std::fs::Dir, path: &str) -> Result<(), Error> {
    let now = Timespec { tv_sec: 0, tv_nsec: UTIME_NOW };
    let times = Timestamps { last_access: now.clone(), last_modification: now.clone() };
    rustix::fs::utimensat(d.as_fd(), path, &times, AtFlags::SYMLINK_NOFOLLOW).map_err(
        error_from_errno,
    )
}

/// Relies on `rustix::fs::statx` with `AT_NO_AUTOMOUNT` and
/// `AT_SYMLINK_NOFOLLOW`: `Ok(Some((known, is_mount)))` reports whether
/// the kernel filled the mount-root attribute and its value; `Ok(None)`
/// when the kernel lacks the call.
#[verifier::external_body]
pub fn sys_statx_mount_probe(d: &cap_std::fs::Dir, path: &str) -> Result<
    Option<(bool, bool)>,
    Error,
> {
    match rustix::fs::statx(
        d.as_fd(),
        path,
        AtFlags::NO_AUTOMOUNT | AtFlags::SYMLINK_NOFOLLOW,
        StatxFlags::empty(),
    ) {
        Ok(r) => {
            let known = r.stx_attributes_mask.contains(StatxAttributes::MOUNT_ROOT);
            let value = r.stx_attributes.contains(StatxAttributes::MOUNT_ROOT);
            Ok(Some((known, value)))
        },
        Err(rustix::io::Errno::NOSYS) => Ok(None),
        Err(e) => Err(error_from_errno(e)),
    }
}

/// Relies on `rustix::fs::openat` with `O_DIRECTORY | O_RDONLY`: reopens
/// the directory as a descriptor without `O_PATH`, on which syncing and
/// attribute calls work.
#[verifier::external_body]
pub fn sys_openat_dir_rdonly(d: &cap_std::fs::Dir) -> Result<rustix::fd::OwnedFd, Error> {
    rustix::fs::openat(
        d.as_fd(),
        ".",
        OFlags::CLOEXEC | OFlags::DIRECTORY | OFlags::RDONLY,
        Mode::empty(),
    ).map_err(error_from_errno)
}

/// Relies on `rustix::fs::lgetxattr`: the attribute's value, not
/// following a final symlink; at most `bufsize` bytes are returned, with
/// a result-too-large error when the value does not fit, and a no-data
/// error when the attribute is not set.
#[verifier::external_body]
pub fn sys_lgetxattr(path: &str, key: &str, bufsize: usize) -> (r: Result<Vec<u8>, Error>)
    ensures
        r matches Ok(v) ==> v@.len() <= bufsize,
{
    let mut buf = vec![0u8; bufsize];
    let n = rustix::fs::lgetxattr(path, key, &mut buf[..]).map_err(error_from_errno)?;
    buf.truncate(n);
    Ok(buf)
}

/// Relies on `rustix::fs::llistxattr`: the NUL-separated attribute names,
/// not following a final symlink; at most `bufsize` bytes are returned,
/// with a result-too-large error when the list does not fit.
#[verifier::external_body]
pub fn sys_llistxattr(path: &str, bufsize: usize) -> (r: Result<Vec<u8>, Error>)
    ensures
        r matches Ok(v) ==> v@.len() <= bufsize,
{
    let mut buf = vec![0u8; bufsize];
    let n = rustix::fs::llistxattr(path, &mut buf[..]).map_err(error_from_errno)?;
    buf.truncate(n);
    Ok(buf)
}

/// Relies on `rustix::fs::lsetxattr`: sets the attribute's value, not
/// following a final symlink.
#[verifier::external_body]
pub fn sys_lsetxattr(path: &str, key: &str, value: &[u8]) -> Result<(), Error> {
    rustix::fs::lsetxattr(path, key, value, rustix::fs::XattrFlags::empty()).map_err(
        error_from_errno,
    )
}

/// Whether a character can appear in a generated scratch name: the
/// hyphenated lowercase hexadecimal alphabet.
pub open spec fn is_scratch_name_char(c: char) -> bool {
    c == '-' || ('0' <= c && c <= '9') || ('a' <= c && c <= 'f')
}

/// A generated scratch name: 36 characters of hyphenated lowercase
/// hexadecimal, so never empty and never holding a separator or a NUL.
pub open spec fn is_scratch_name(s: Seq<char>) -> bool {
    s.len() == 36 && (forall|i: int| 0 <= i < s.len() ==> is_scratch_name_char(s[i]))
}

/// Relies on `cap_std::fs_utf8::Dir::as_cap_std`: the plain view of a
/// UTF-8 directory handle; both refer to the same open directory.
#[verifier::external_body]
pub fn utf8_as_cap_std<'a>(d: &'a cap_std::fs_utf8::Dir) -> &'a cap_std::fs::Dir {
    d.as_cap_std()
}

/// Relies on `cap_std::fs_utf8::Dir::open`: opens a file read-only,
/// relative to the directory, never escaping it.
#[verifier::external_body]
pub fn utf8_dir_open(d: &cap_std::fs_utf8::Dir, path: &str) -> Result<
    cap_std::fs_utf8::File,
    Error,
> {
    d.open(path).map_err(error_from_io)
}

/// Relies on `cap_std::fs_utf8::Dir::open_dir`: opens a subdirectory,
/// relative to the directory, never escaping it.
#[verifier::external_body]
pub fn utf8_dir_open_dir(d: &cap_std::fs_utf8::Dir, path: &str) -> Result<
    cap_std::fs_utf8::Dir,
    Error,
> {
    d.open_dir(path).map_err(error_from_io)
}

/// Relies on `cap_std::fs_utf8::Dir::entries` and `ReadDir`'s iteration:
/// the directory's entries, in an order the filesystem chooses.
#[verifier::external_body]
pub fn utf8_dir_entries_list(d: &cap_std::fs_utf8::Dir) -> Result<
    Vec<cap_std::fs_utf8::DirEntry>,
    Error,
> {
    let entries = d.entries().map_err(error_from_io)?;
    let mut out = Vec::new();
    for e in entries {
        out.push(e.map_err(error_from_io)?);
    }
    Ok(out)
}

/// Relies on `cap_std::fs_utf8::DirEntry::file_name`: the entry's name; a
/// name that is not UTF-8 is an error.
#[verifier::external_body]
pub fn utf8_entry_file_name(e: &cap_std::fs_utf8::DirEntry) -> Result<String, Error> {
    e.file_name().map_err(error_from_io)
}

/// Relies on `uuid::Uuid::new_v4` and its `to_string`: a randomly
/// generated name in the 36-character hyphenated lowercase hexadecimal
/// form.
#[verifier::external_body]
pub fn random_name() -> (s: String)
    ensures
        is_scratch_name(s@),
{
    uuid::Uuid::new_v4().to_string()
}

/// Relies on `String::from_iter` over characters: the string holding
/// exactly the given characters.
#[verifier::external_body]
pub fn chars_to_string(v: &Vec<char>) -> (s: String)
    ensures
        s@ == v@,
{
    v.iter().collect()
}

/// Relies on `String::from_utf8`: decodes the bytes as UTF-8, succeeding
/// exactly on valid UTF-8 and returning the string with those bytes.
#[verifier::external_body]
pub fn bytes_to_string(v: Vec<u8>) -> (r: Result<String, Error>)
    ensures
        r is Ok <==> valid_utf8(v@),
        r matches Ok(s) ==> vstd::utf8::encode_utf8(s@) == v@,
        r matches Err(e) ==> e.kind == ErrorKind::InvalidData,
{
    match String::from_utf8(v) {
        Ok(s) => Ok(s),
        Err(_) => Err(Error::new(ErrorKind::InvalidData, "stream did not contain valid UTF-8".to_owned())),
    }
}

} // verus!
