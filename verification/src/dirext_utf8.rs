//! Extensions for a UTF-8 capability directory handle.
//!
//! These mirror the plain extensions, delegating to them through the
//! handle's plain view, and add sorted filename listings whose order is
//! the verified lexicographic one.

use vstd::prelude::*;

verus! {

use crate::dirext::CapStdExtDirExt;
use crate::dirext::map_optional;
use crate::errors::Error;
use crate::errors::ErrorKind;
use crate::pathutil::split_parent_name;
use crate::sys;
use crate::tempfile::LinkableTempfile;
use crate::walk::lex_le;
use crate::walk::lemma_lex_le_total;
use crate::walk::lemma_lex_le_trans;
use crate::walk::str_lex_le;
use vstd::multiset::Multiset;

broadcast use vstd::seq_lib::group_to_multiset_ensures;

/// The names are in lexicographic order.
pub open spec fn names_sorted(v: Seq<String>) -> bool {
    forall|p: int, q: int| 0 <= p <= q < v.len() ==> lex_le(v[p]@, v[q]@)
}

/// Sort names lexicographically: the result holds exactly the given
/// names — none dropped, none duplicated — in order.
pub fn sort_names(v: Vec<String>) -> (r: Vec<String>)
    ensures
        r@.to_multiset() == v@.to_multiset(),
        names_sorted(r@),
{
    let mut rem = v;
    let mut out: Vec<String> = Vec::new();
    while rem.len() > 0
        invariant
            out@.to_multiset().add(rem@.to_multiset()) == v@.to_multiset(),
            forall|p: int, q: int| 0 <= p <= q < out@.len() ==> lex_le(out@[p]@, out@[q]@),
            forall|p: int, q: int|
                0 <= p < out@.len() && 0 <= q < rem@.len() ==> lex_le(out@[p]@, rem@[q]@),
        decreases rem.len(),
    {
        // Find the least remaining name.
        let mut best: usize = 0;
        let mut j: usize = 1;
        proof {
            lemma_lex_le_total(rem@[0]@, rem@[0]@);
        }
        while j < rem.len()
            invariant
                best < j <= rem.len(),
                rem.len() > 0,
                forall|k: int| 0 <= k < j ==> lex_le(rem@[best as int]@, rem@[k]@),
            decreases rem.len() - j,
        {
            if str_lex_le(rem[j].as_str(), rem[best].as_str()) {
                proof {
                    assert forall|k: int| 0 <= k < j + 1 implies lex_le(
                        rem@[j as int]@,
                        rem@[k]@,
                    ) by {
                        if k < j {
                            lemma_lex_le_trans(rem@[j as int]@, rem@[best as int]@, rem@[k]@);
                        } else {
                            lemma_lex_le_total(rem@[j as int]@, rem@[j as int]@);
                        }
                    }
                }
                best = j;
            } else {
                proof {
                    lemma_lex_le_total(rem@[j as int]@, rem@[best as int]@);
                }
            }
            j += 1;
        }
        let ghost old_rem = rem@;
        let ghost old_out = out@;
        let item = rem.remove(best);
        out.push(item);
        proof {
            assert(old_rem.contains(old_rem[best as int]));
            assert(out@.to_multiset() =~= old_out.to_multiset().insert(old_rem[best as int]));
            assert(rem@.to_multiset() =~= old_rem.to_multiset().remove(old_rem[best as int]));
            assert(out@.to_multiset().add(rem@.to_multiset()) =~= old_out.to_multiset().add(
                old_rem.to_multiset(),
            ));
            assert forall|p: int, q: int|
                0 <= p < out@.len() && 0 <= q < rem@.len() implies lex_le(
                out@[p]@,
                rem@[q]@,
            ) by {
                let orig_q = if q < best as int {
                    q
                } else {
                    q + 1
                };
                assert(rem@[q] == old_rem[orig_q]);
                if p < out@.len() - 1 {
                    assert(lex_le(out@[p]@, old_rem[orig_q]@));
                } else {
                    assert(out@[p] == old_rem[best as int]);
                    assert(lex_le(old_rem[best as int]@, old_rem[orig_q]@));
                }
            }
        }
    }
    proof {
        assert(rem@.to_multiset() =~= Multiset::<String>::empty());
        assert(out@.to_multiset() =~= v@.to_multiset());
    }
    out
}

/// Extension operations on [`cap_std::fs_utf8::Dir`].
pub trait CapStdExtDirExtUtf8 {
    /// Open a file read-only, with `Ok(None)` when it does not exist.
    fn open_optional(&self, path: &str) -> (r: Result<Option<cap_std::fs_utf8::File>, Error>)
        ensures
            r matches Err(e) ==> e.kind != ErrorKind::NotFound,
    ;

    /// Open a directory, with `Ok(None)` when it does not exist.
    fn open_dir_optional(&self, path: &str) -> (r: Result<Option<cap_std::fs_utf8::Dir>, Error>)
        ensures
            r matches Err(e) ==> e.kind != ErrorKind::NotFound,
    ;

    /// Create the target directory, with `Ok(false)` and no action when a
    /// directory already exists there. An existing entry that is not
    /// itself a directory — a symlink included, even one pointing at a
    /// directory — is an error. A name collision is always resolved, to
    /// `Ok(false)` or to that error, so an already-exists error is never
    /// reported.
    fn ensure_dir_with(&self, p: &str, builder: &cap_std::fs::DirBuilder) -> (r: Result<
        bool,
        Error,
    >)
        ensures
            r matches Err(e) ==> e.kind != ErrorKind::AlreadyExists,
    ;

    /// Gather metadata, following symlinks, with `Ok(None)` when the path
    /// does not exist.
    fn metadata_optional(&self, path: &str) -> (r: Result<Option<cap_std::fs::Metadata>, Error>)
        ensures
            r matches Err(e) ==> e.kind != ErrorKind::NotFound,
    ;

    /// Gather metadata without following a final symlink, with `Ok(None)`
    /// when the path does not exist.
    fn symlink_metadata_optional(&self, path: &str) -> (r: Result<
        Option<cap_std::fs::Metadata>,
        Error,
    >)
        ensures
            r matches Err(e) ==> e.kind != ErrorKind::NotFound,
    ;

    /// Remove a file, with `Ok(false)` when it does not exist.
    fn remove_file_optional(&self, path: &str) -> (r: Result<bool, Error>)
        ensures
            r matches Err(e) ==> e.kind != ErrorKind::NotFound,
    ;

    /// Remove a file, symlink or directory subtree, with `Ok(false)` when
    /// the path does not exist and `Ok(true)` after a removal. What the
    /// path holds is probed without following a final symlink, and the
    /// probe's outcome is acted on exactly as
    /// [`crate::dirext::removal_action_spec`] states.
    fn remove_all_optional(&self, path: &str) -> Result<bool, Error>;

    /// Set the access and modification times to the current time, without
    /// following a final symlink.
    fn update_timestamps(&self, path: &str) -> Result<(), Error>;

    /// Atomically write a file by calling the provided writer against a
    /// temporary file, then renaming it over the destination; see
    /// [`CapStdExtDirExt::atomic_replace_with`].
    fn atomic_replace_with<T, F: FnOnce(&LinkableTempfile) -> Result<T, Error>>(
        &self,
        destname: &str,
        f: F,
    ) -> (r: Result<T, Error>)
        requires
            forall|t: &LinkableTempfile| call_requires(f, (t,)),
        ensures
            split_parent_name(destname@) is None ==> (r matches Err(e) && e.kind
                == ErrorKind::InvalidInput),
            r matches Ok(v) ==> (exists|t: &LinkableTempfile|
                call_ensures(f, (t,), Result::<T, Error>::Ok(v))),
    ;

    /// Atomically write the provided contents to a file.
    fn atomic_write(&self, destname: &str, contents: &[u8]) -> (r: Result<(), Error>)
        ensures
            split_parent_name(destname@) is None ==> (r matches Err(e) && e.kind
                == ErrorKind::InvalidInput),
    ;

    /// Atomically write the provided contents to a file with the given
    /// permissions.
    fn atomic_write_with_perms(
        &self,
        destname: &str,
        contents: &[u8],
        perms: cap_std::fs::Permissions,
    ) -> (r: Result<(), Error>)
        ensures
            split_parent_name(destname@) is None ==> (r matches Err(e) && e.kind
                == ErrorKind::InvalidInput),
    ;

    /// All filenames in this directory, in lexicographic order.
    fn filenames_sorted(&self) -> (r: Result<Vec<String>, Error>)
        ensures
            r matches Ok(v) ==> names_sorted(v@),
    ;

    /// The filenames in this directory that the filter keeps, in
    /// lexicographic order.
    fn filenames_filtered_sorted<F: Fn(&cap_std::fs_utf8::DirEntry, &str) -> bool>(
        &self,
        f: F,
    ) -> (r: Result<Vec<String>, Error>)
        requires
            forall|e: &cap_std::fs_utf8::DirEntry, n: &str| call_requires(f, (e, n)),
        ensures
            r matches Ok(v) ==> names_sorted(v@),
    ;
}

/// A filter that keeps every entry.
fn keep_all(_e: &cap_std::fs_utf8::DirEntry, _n: &str) -> bool {
    true
}

/// List, filter and sort one directory's filenames: the kept names are
/// handed to [`sort_names`], which keeps exactly them and only orders
/// them.
fn impl_filenames_filtered_sorted<F: Fn(&cap_std::fs_utf8::DirEntry, &str) -> bool>(
    d: &cap_std::fs_utf8::Dir,
    f: F,
) -> (r: Result<Vec<String>, Error>)
    requires
        forall|e: &cap_std::fs_utf8::DirEntry, n: &str| call_requires(f, (e, n)),
    ensures
        r matches Ok(v) ==> names_sorted(v@),
{
    let mut entries = sys::utf8_dir_entries_list(d)?;
    let mut kept: Vec<String> = Vec::new();
    while entries.len() > 0
        invariant
            forall|e: &cap_std::fs_utf8::DirEntry, n: &str| call_requires(f, (e, n)),
        decreases entries.len(),
    {
        let e = entries.remove(0);
        let name = sys::utf8_entry_file_name(&e)?;
        if f(&e, name.as_str()) {
            kept.push(name);
        }
    }
    Ok(sort_names(kept))
}

impl CapStdExtDirExtUtf8 for cap_std::fs_utf8::Dir {
    fn open_optional(&self, path: &str) -> (r: Result<Option<cap_std::fs_utf8::File>, Error>) {
        map_optional(sys::utf8_dir_open(self, path))
    }

    fn open_dir_optional(&self, path: &str) -> (r: Result<Option<cap_std::fs_utf8::Dir>, Error>) {
        map_optional(sys::utf8_dir_open_dir(self, path))
    }

    fn ensure_dir_with(&self, p: &str, builder: &cap_std::fs::DirBuilder) -> (r: Result<
        bool,
        Error,
    >) {
        sys::utf8_as_cap_std(self).ensure_dir_with(p, builder)
    }

    fn metadata_optional(&self, path: &str) -> (r: Result<Option<cap_std::fs::Metadata>, Error>) {
        sys::utf8_as_cap_std(self).metadata_optional(path)
    }

    fn symlink_metadata_optional(&self, path: &str) -> (r: Result<
        Option<cap_std::fs::Metadata>,
        Error,
    >) {
        sys::utf8_as_cap_std(self).symlink_metadata_optional(path)
    }

    fn remove_file_optional(&self, path: &str) -> (r: Result<bool, Error>) {
        sys::utf8_as_cap_std(self).remove_file_optional(path)
    }

    fn remove_all_optional(&self, path: &str) -> Result<bool, Error> {
        sys::utf8_as_cap_std(self).remove_all_optional(path)
    }

    fn update_timestamps(&self, path: &str) -> Result<(), Error> {
        sys::utf8_as_cap_std(self).update_timestamps(path)
    }

    fn atomic_replace_with<T, F: FnOnce(&LinkableTempfile) -> Result<T, Error>>(
        &self,
        destname: &str,
        f: F,
    ) -> (r: Result<T, Error>) {
        sys::utf8_as_cap_std(self).atomic_replace_with(destname, f)
    }

    fn atomic_write(&self, destname: &str, contents: &[u8]) -> (r: Result<(), Error>) {
        sys::utf8_as_cap_std(self).atomic_write(destname, contents)
    }

    fn atomic_write_with_perms(
        &self,
        destname: &str,
        contents: &[u8],
        perms: cap_std::fs::Permissions,
    ) -> (r: Result<(), Error>) {
        sys::utf8_as_cap_std(self).atomic_write_with_perms(destname, contents, perms)
    }

    fn filenames_sorted(&self) -> (r: Result<Vec<String>, Error>) {
        impl_filenames_filtered_sorted(self, keep_all)
    }

    fn filenames_filtered_sorted<F: Fn(&cap_std::fs_utf8::DirEntry, &str) -> bool>(
        &self,
        f: F,
    ) -> (r: Result<Vec<String>, Error>) {
        impl_filenames_filtered_sorted(self, f)
    }
}

} // verus!
