//! Extended-attribute access through synthesized descriptor-relative
//! paths.
//!
//! The attribute syscalls have no descriptor-relative form that applies
//! to symlinks, so every call validates the given relative path and
//! synthesizes a `/proc/self/fd/<fd>/<path>` lookup path for it. Results
//! are fetched with a grow-and-retry buffer loop: start small, double
//! while the kernel reports that the value did not fit.

use vstd::prelude::*;

verus! {

use crate::errors::Error;
use crate::errors::ErrorKind;
use crate::pathutil::is_confined_relpath;
use crate::pathutil::synthesize_proc_path;
use crate::sys;

/// The index of the first NUL in the buffer, or its length if there is
/// none.
pub open spec fn first_nul(buf: Seq<u8>) -> int
    decreases buf.len(),
{
    if buf.len() == 0 {
        0
    } else if buf[0] == 0 {
        0
    } else {
        1 + first_nul(buf.drop_first())
    }
}

proof fn lemma_first_nul_bounds(buf: Seq<u8>)
    ensures
        0 <= first_nul(buf) <= buf.len(),
        forall|k: int| 0 <= k < first_nul(buf) ==> buf[k] != 0,
        first_nul(buf) < buf.len() ==> buf[first_nul(buf)] == 0,
    decreases buf.len(),
{
    if buf.len() > 0 && buf[0] != 0 {
        lemma_first_nul_bounds(buf.drop_first());
        assert forall|k: int| 0 <= k < first_nul(buf) implies buf[k] != 0 by {
            if k > 0 {
                assert(buf.drop_first()[k - 1] != 0);
            }
        }
    }
}

proof fn lemma_first_nul_at(buf: Seq<u8>, j: int)
    requires
        0 <= j <= buf.len(),
        forall|k: int| 0 <= k < j ==> buf[k] != 0,
        j < buf.len() ==> buf[j] == 0,
    ensures
        first_nul(buf) == j,
    decreases buf.len(),
{
    if buf.len() > 0 && buf[0] != 0 {
        assert(forall|k: int| 0 <= k < j - 1 ==> buf.drop_first()[k] != 0);
        lemma_first_nul_at(buf.drop_first(), j - 1);
    }
}

/// The attribute names in a NUL-separated buffer: the maximal nonempty
/// NUL-free runs, in order.
pub open spec fn split_names(buf: Seq<u8>) -> Seq<Seq<u8>>
    decreases buf.len(),
    via split_names_decreases
{
    if buf.len() == 0 {
        Seq::empty()
    } else if buf[0] == 0 {
        split_names(buf.drop_first())
    } else {
        let j = first_nul(buf);
        seq![buf.subrange(0, j)] + split_names(buf.subrange(j, buf.len() as int))
    }
}

#[via_fn]
proof fn split_names_decreases(buf: Seq<u8>) {
    if buf.len() > 0 && buf[0] != 0 {
        lemma_first_nul_bounds(buf);
    }
}

/// A list of extended attribute names, as the kernel returns it: a
/// buffer of NUL-separated names.
#[derive(Debug)]
pub struct XattrList {
    buf: Vec<u8>,
}

impl View for XattrList {
    type V = Seq<u8>;

    closed spec fn view(&self) -> Seq<u8> {
        self.buf@
    }
}

impl XattrList {
    /// Wrap a raw NUL-separated buffer.
    pub fn new(buf: Vec<u8>) -> (r: XattrList)
        ensures
            r@ == buf@,
    {
        XattrList { buf }
    }

    /// The names in this list, each one yielded once, in order, with the
    /// separators and the trailing terminator filtered out.
    pub fn iter(&self) -> (r: Vec<Vec<u8>>)
        ensures
            r.deep_view() == split_names(self@),
    {
        let n = self.buf.len();
        let mut out: Vec<Vec<u8>> = Vec::new();
        let mut i: usize = 0;
        proof {
            assert(self@.subrange(0, n as int) =~= self@);
            assert(out.deep_view() =~= Seq::<Seq<u8>>::empty());
            assert(split_names(self@) =~= out.deep_view() + split_names(
                self@.subrange(0, n as int),
            ));
        }
        while i < n
            invariant
                i <= n,
                n == self@.len(),
                self@ == self.buf@,
                split_names(self@) == out.deep_view() + split_names(
                    self@.subrange(i as int, n as int),
                ),
            decreases n - i,
        {
            if self.buf[i] == 0 {
                proof {
                    assert(self@.subrange(i as int, n as int).drop_first() =~= self@.subrange(
                        i as int + 1,
                        n as int,
                    ));
                }
                i += 1;
            } else {
                let mut j = i;
                while j < n && self.buf[j] != 0
                    invariant
                        i <= j <= n,
                        n == self@.len(),
                        self@ == self.buf@,
                        forall|k: int| i <= k < j ==> self@[k] != 0,
                    decreases n - j,
                {
                    j += 1;
                }
                let ghost suffix = self@.subrange(i as int, n as int);
                proof {
                    assert(forall|k: int| 0 <= k < j - i ==> suffix[k] != 0);
                    lemma_first_nul_at(suffix, j - i);
                    assert(suffix.subrange(0, j - i) =~= self@.subrange(i as int, j as int));
                    assert(suffix.subrange(j - i, suffix.len() as int) =~= self@.subrange(
                        j as int,
                        n as int,
                    ));
                }
                let mut piece: Vec<u8> = Vec::new();
                let mut k = i;
                while k < j
                    invariant
                        i <= k <= j <= n,
                        n == self@.len(),
                        self@ == self.buf@,
                        piece@ == self@.subrange(i as int, k as int),
                    decreases j - k,
                {
                    piece.push(self.buf[k]);
                    k += 1;
                    proof {
                        assert(piece@ =~= self@.subrange(i as int, k as int));
                    }
                }
                let ghost prev = out.deep_view();
                out.push(piece);
                proof {
                    assert(piece.deep_view() =~= self@.subrange(i as int, j as int));
                    assert(out.deep_view() =~= prev.push(self@.subrange(i as int, j as int)));
                    assert(split_names(suffix) == seq![suffix.subrange(0, j - i)] + split_names(
                        suffix.subrange(j - i, suffix.len() as int),
                    ));
                    assert(split_names(self@) =~= out.deep_view() + split_names(
                        self@.subrange(j as int, n as int),
                    ));
                }
                i = j;
            }
        }
        proof {
            assert(self@.subrange(i as int, n as int) =~= Seq::<u8>::empty());
            assert(out.deep_view() + Seq::<Seq<u8>>::empty() =~= out.deep_view());
            assert(split_names(self@) =~= out.deep_view());
        }
        out
    }
}

/// Double a buffer size, stopping at the largest representable size.
fn grow_bufsize(n: usize) -> (r: usize)
    ensures
        n < usize::MAX ==> r > n,
        r >= n,
{
    if n > usize::MAX / 2 {
        usize::MAX
    } else if n == 0 {
        1
    } else {
        n * 2
    }
}

/// Get the value of an extended attribute of `path` relative to `d`, with
/// `Ok(None)` when the attribute is not set. The buffer is doubled and
/// the call retried while the kernel reports that the value did not fit.
pub fn impl_getxattr(d: &cap_std::fs::Dir, path: &str, key: &str) -> (r: Result<
    Option<Vec<u8>>,
    Error,
>)
    ensures
        !is_confined_relpath(path@) ==> (r matches Err(e) && e.kind == ErrorKind::PermissionDenied),
        r matches Err(e) ==> e.kind != ErrorKind::NoData,
{
    let fd = sys::dir_raw_fd(d);
    let lookup = synthesize_proc_path(fd as u32, path)?;
    let mut bufsize: usize = 256;
    loop
        invariant
            bufsize >= 1,
            is_confined_relpath(path@),
        decreases usize::MAX - bufsize,
    {
        match sys::sys_lgetxattr(lookup.as_str(), key, bufsize) {
            Ok(v) => {
                return Ok(Some(v));
            },
            Err(e) => {
                let k = e.kind();
                if k == ErrorKind::NoData {
                    return Ok(None);
                } else if k == ErrorKind::ResultTooLarge && bufsize < usize::MAX {
                    bufsize = grow_bufsize(bufsize);
                } else {
                    return Err(e);
                }
            },
        }
    }
}

/// List the extended attribute names of `path` relative to `d`. The
/// buffer is doubled and the call retried while the kernel reports that
/// the list did not fit.
pub fn impl_listxattrs(d: &cap_std::fs::Dir, path: &str) -> (r: Result<XattrList, Error>)
    ensures
        !is_confined_relpath(path@) ==> (r matches Err(e) && e.kind == ErrorKind::PermissionDenied),
{
    let fd = sys::dir_raw_fd(d);
    let lookup = synthesize_proc_path(fd as u32, path)?;
    let mut bufsize: usize = 512;
    loop
        invariant
            bufsize >= 1,
            is_confined_relpath(path@),
        decreases usize::MAX - bufsize,
    {
        match sys::sys_llistxattr(lookup.as_str(), bufsize) {
            Ok(v) => {
                return Ok(XattrList::new(v));
            },
            Err(e) => {
                let k = e.kind();
                if k == ErrorKind::ResultTooLarge && bufsize < usize::MAX {
                    bufsize = grow_bufsize(bufsize);
                } else {
                    return Err(e);
                }
            },
        }
    }
}

/// Set the value of an extended attribute of `path` relative to `d`.
pub fn impl_setxattr(d: &cap_std::fs::Dir, path: &str, key: &str, value: &[u8]) -> (r: Result<
    (),
    Error,
>)
    ensures
        !is_confined_relpath(path@) ==> (r matches Err(e) && e.kind == ErrorKind::PermissionDenied),
{
    let fd = sys::dir_raw_fd(d);
    let lookup = synthesize_proc_path(fd as u32, path)?;
    sys::sys_lsetxattr(lookup.as_str(), key, value)
}

} // verus!
