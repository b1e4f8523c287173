//! Verified path reasoning over character sequences.
//!
//! Paths are UTF-8 strings whose components are separated by `/`. The
//! functions here decide the two questions the library's security story
//! rests on — is a path absolute, and does it contain an uplink (`..`)
//! component — and split a path into its parent directory and filename.

use vstd::prelude::*;

verus! {

use vstd::string::StrSliceExecFns;
use vstd::string::StringExecFns;
use crate::errors::Error;
use crate::errors::ErrorKind;
use crate::errors::escape_attempt;
use crate::sys::chars_to_string;

/// An absolute path starts with a separator.
pub open spec fn is_absolute_path(s: Seq<char>) -> bool {
    s.len() > 0 && s[0] == '/'
}

/// A `..` component starts at position `i`: the two dots are bounded by
/// the string's ends or by separators on both sides.
pub open spec fn uplink_at(s: Seq<char>, i: int) -> bool {
    &&& 0 <= i
    &&& i + 2 <= s.len()
    &&& s[i] == '.'
    &&& s[i + 1] == '.'
    &&& (i == 0 || s[i - 1] == '/')
    &&& (i + 2 == s.len() || s[i + 2] == '/')
}

/// The path has a `..` component somewhere.
pub open spec fn has_uplink(s: Seq<char>) -> bool {
    exists|i: int| uplink_at(s, i)
}

/// A path is confined when it is relative and never refers to a parent
/// directory, so resolving it cannot escape the directory it starts from.
pub open spec fn is_confined_relpath(s: Seq<char>) -> bool {
    !is_absolute_path(s) && !has_uplink(s)
}

/// The characters of a string, as a vector.
pub fn chars_of(s: &str) -> (v: Vec<char>)
    ensures
        v@ == s@,
{
    let n = s.unicode_len();
    let mut v: Vec<char> = Vec::new();
    let mut i: usize = 0;
    while i < n
        invariant
            i <= n,
            n == s@.len(),
            v@ == s@.subrange(0, i as int),
        decreases n - i,
    {
        let c = s.get_char(i);
        v.push(c);
        i += 1;
        proof {
            assert(v@ =~= s@.subrange(0, i as int));
        }
    }
    proof {
        assert(v@ =~= s@);
    }
    v
}

/// Check that a path is relative and has no `..` component: exactly the
/// paths for which `is_confined_relpath` holds are returned unchanged,
/// and every other path is rejected as an escape attempt.
pub fn validate_relpath_no_uplinks<'a>(path: &'a str) -> (r: Result<&'a str, Error>)
    ensures
        r is Ok <==> is_confined_relpath(path@),
        r matches Ok(p) ==> p@ == path@,
        r matches Err(e) ==> e.kind == ErrorKind::PermissionDenied,
{
    let cs = chars_of(path);
    let n = cs.len();
    if n > 0 && cs[0] == '/' {
        return Err(escape_attempt());
    }
    let mut i: usize = 0;
    while i < n
        invariant
            i <= n,
            n == path@.len(),
            cs@ == path@,
            forall|j: int| 0 <= j < i ==> !uplink_at(path@, j),
        decreases n - i,
    {
        if cs[i] == '.' && i + 1 < n && cs[i + 1] == '.' && (i == 0 || cs[i - 1] == '/') && (i + 2
            == n || cs[i + 2] == '/') {
            proof {
                assert(uplink_at(path@, i as int));
            }
            return Err(escape_attempt());
        }
        i += 1;
    }
    proof {
        assert(forall|j: int| !uplink_at(path@, j));
    }
    Ok(path)
}

/// The path with every trailing separator removed.
pub open spec fn trim_trailing_sep(s: Seq<char>) -> Seq<char>
    decreases s.len(),
{
    if s.len() > 0 && s[s.len() - 1] == '/' {
        trim_trailing_sep(s.drop_last())
    } else {
        s
    }
}

/// The index of the last separator in the path, or -1 if there is none.
pub open spec fn last_sep(s: Seq<char>) -> int
    decreases s.len(),
{
    if s.len() == 0 {
        -1
    } else if s[s.len() - 1] == '/' {
        s.len() - 1
    } else {
        last_sep(s.drop_last())
    }
}

proof fn lemma_last_sep_bounds(s: Seq<char>)
    ensures
        -1 <= last_sep(s) < s.len(),
    decreases s.len(),
{
    if s.len() > 0 && s[s.len() - 1] != '/' {
        lemma_last_sep_bounds(s.drop_last());
    }
}

proof fn lemma_last_sep_at(s: Seq<char>, k: int)
    requires
        0 <= k < s.len(),
        s[k] == '/',
        forall|m: int| k < m < s.len() ==> s[m] != '/',
    ensures
        last_sep(s) == k,
    decreases s.len(),
{
    if k == s.len() - 1 {
    } else {
        lemma_last_sep_at(s.drop_last(), k);
    }
}

proof fn lemma_last_sep_none(s: Seq<char>)
    requires
        forall|m: int| 0 <= m < s.len() ==> s[m] != '/',
    ensures
        last_sep(s) == -1,
    decreases s.len(),
{
    if s.len() > 0 {
        lemma_last_sep_none(s.drop_last());
    }
}

/// Whether the sequence spells a lone `.` or `..` component, which names
/// no file.
pub open spec fn is_dot_or_dotdot(name: Seq<char>) -> bool {
    ||| (name.len() == 1 && name[0] == '.')
    ||| (name.len() == 2 && name[0] == '.' && name[1] == '.')
}

/// Split a path into the prefix naming its parent directory and its final
/// filename component, after ignoring trailing separators. `None` when
/// the path has no filename component: it is empty, all separators, or
/// ends in a `.` or `..` component. An empty parent means the path is a
/// bare filename.
pub open spec fn split_parent_name(s: Seq<char>) -> Option<(Seq<char>, Seq<char>)> {
    let t = trim_trailing_sep(s);
    if t.len() == 0 {
        None
    } else {
        let k = last_sep(t);
        let name = t.subrange(k + 1, t.len() as int);
        if is_dot_or_dotdot(name) {
            None
        } else if k == -1 {
            Some((Seq::empty(), name))
        } else if k == 0 {
            Some((seq!['/'], name))
        } else {
            Some((t.subrange(0, k), name))
        }
    }
}

/// Split a path into its parent prefix and filename, as
/// `split_parent_name` describes. An empty parent string means the path
/// is a bare filename to be resolved in the starting directory itself.
pub fn split_parent_file_name<'a>(path: &'a str) -> (r: Option<(&'a str, &'a str)>)
    ensures
        match r {
            Some(pn) => {
                &&& split_parent_name(path@) matches Some(sn)
                &&& sn.0 == pn.0@
                &&& sn.1 == pn.1@
            },
            None => split_parent_name(path@) is None,
        },
{
    let cs = chars_of(path);
    let n = cs.len();
    proof {
        assert(path@.subrange(0, n as int) =~= path@);
    }
    // Ignore trailing separators.
    let mut end: usize = n;
    while end > 0 && cs[end - 1] == '/'
        invariant
            end <= n,
            n == path@.len(),
            cs@ == path@,
            trim_trailing_sep(path@) == trim_trailing_sep(path@.subrange(0, end as int)),
        decreases end,
    {
        proof {
            assert(path@.subrange(0, end as int).drop_last() =~= path@.subrange(0, end as int - 1));
        }
        end -= 1;
    }
    let ghost t = path@.subrange(0, end as int);
    proof {
        assert(trim_trailing_sep(path@) == t);
    }
    if end == 0 {
        return None;
    }
    // Find the last separator before the filename.
    let mut j: usize = end;
    while j > 0 && cs[j - 1] != '/'
        invariant
            j <= end <= n,
            n == path@.len(),
            cs@ == path@,
            forall|m: int| j <= m < end ==> path@[m] != '/',
        decreases j,
    {
        j -= 1;
    }
    proof {
        assert(forall|m: int| j <= m < t.len() ==> t[m] != '/');
        if j == 0 {
            lemma_last_sep_none(t);
        } else {
            lemma_last_sep_at(t, j - 1);
        }
        lemma_last_sep_bounds(t);
    }
    // Reject a `.` or `..` filename component.
    let name_len = end - j;
    if (name_len == 1 && cs[j] == '.') || (name_len == 2 && cs[j] == '.' && cs[j + 1] == '.') {
        proof {
            assert(t.subrange(last_sep(t) + 1, t.len() as int) =~= path@.subrange(
                j as int,
                end as int,
            ));
        }
        return None;
    }
    let name = path.substring_char(j, end);
    proof {
        assert(t.subrange(last_sep(t) + 1, t.len() as int) =~= path@.subrange(j as int, end as int));
        assert(!is_dot_or_dotdot(t.subrange(last_sep(t) + 1, t.len() as int)));
    }
    if j == 0 {
        let parent = path.substring_char(0, 0);
        proof {
            assert(parent@ =~= Seq::<char>::empty());
        }
        Some((parent, name))
    } else if j == 1 {
        let parent = path.substring_char(0, 1);
        proof {
            assert(parent@ =~= seq!['/']);
        }
        Some((parent, name))
    } else {
        let parent = path.substring_char(0, j - 1);
        proof {
            assert(parent@ =~= t.subrange(0, last_sep(t)));
        }
        Some((parent, name))
    }
}

/// The character for one decimal digit.
pub open spec fn digit_char(d: nat) -> char {
    if d == 0 {
        '0'
    } else if d == 1 {
        '1'
    } else if d == 2 {
        '2'
    } else if d == 3 {
        '3'
    } else if d == 4 {
        '4'
    } else if d == 5 {
        '5'
    } else if d == 6 {
        '6'
    } else if d == 7 {
        '7'
    } else if d == 8 {
        '8'
    } else {
        '9'
    }
}

/// The decimal digits of a number, most significant first.
pub open spec fn dec_digits(n: nat) -> Seq<char>
    decreases n,
{
    if n < 10 {
        seq![digit_char(n)]
    } else {
        dec_digits(n / 10) + seq![digit_char(n % 10)]
    }
}

fn digit_char_exec(d: u32) -> (c: char)
    requires
        d < 10,
    ensures
        c == digit_char(d as nat),
{
    if d == 0 {
        '0'
    } else if d == 1 {
        '1'
    } else if d == 2 {
        '2'
    } else if d == 3 {
        '3'
    } else if d == 4 {
        '4'
    } else if d == 5 {
        '5'
    } else if d == 6 {
        '6'
    } else if d == 7 {
        '7'
    } else if d == 8 {
        '8'
    } else {
        '9'
    }
}

/// Render a number in decimal.
pub fn format_u32_decimal(n: u32) -> (s: String)
    ensures
        s@ == dec_digits(n as nat),
    decreases n,
{
    let d = digit_char_exec(n % 10);
    if n < 10 {
        let mut v: Vec<char> = Vec::new();
        v.push(d);
        let s = chars_to_string(&v);
        proof {
            assert(s@ =~= dec_digits(n as nat));
        }
        s
    } else {
        proof {
            assert(n / 10 < n) by (nonlinear_arith)
                requires
                    n >= 10,
            ;
        }
        let mut s = format_u32_decimal(n / 10);
        let mut v: Vec<char> = Vec::new();
        v.push(d);
        let tail = chars_to_string(&v);
        s.append(tail.as_str());
        proof {
            assert(s@ =~= dec_digits(n as nat));
        }
        s
    }
}

/// A path extended by one component: the base, a separator when the base
/// is not empty, and the component's name.
pub open spec fn joined_path(base: Seq<char>, name: Seq<char>) -> Seq<char> {
    if base.len() == 0 {
        name
    } else {
        base + seq!['/'] + name
    }
}

/// Extend a path by one component, as [`joined_path`] states.
pub fn join_path(base: &str, name: &str) -> (r: String)
    ensures
        r@ == joined_path(base@, name@),
{
    if base.is_empty() {
        name.to_owned()
    } else {
        let mut s = base.to_owned();
        let mut v: Vec<char> = Vec::new();
        v.push('/');
        let slash = chars_to_string(&v);
        s.append(slash.as_str());
        s.append(name);
        proof {
            assert(s@ =~= joined_path(base@, name@));
        }
        s
    }
}

/// The prefix of every synthesized descriptor-relative path.
pub open spec fn proc_self_fd_prefix() -> Seq<char> {
    "/proc/self/fd/"@
}

/// Synthesize the lookup path `/proc/self/fd/<fd>/<path>` that reaches
/// `path` relative to the open descriptor `fd`. Exactly the confined
/// relative paths are accepted; an absolute path or one with a `..`
/// component is rejected as an escape attempt.
pub fn synthesize_proc_path(fd: u32, path: &str) -> (r: Result<String, Error>)
    ensures
        r is Ok <==> is_confined_relpath(path@),
        r matches Ok(s) ==> s@ == proc_self_fd_prefix() + dec_digits(fd as nat) + seq!['/']
            + path@,
        r matches Err(e) ==> e.kind == ErrorKind::PermissionDenied,
{
    let path = validate_relpath_no_uplinks(path)?;
    let mut s = "/proc/self/fd/".to_owned();
    let digits = format_u32_decimal(fd);
    s.append(digits.as_str());
    let mut v: Vec<char> = Vec::new();
    v.push('/');
    let slash = chars_to_string(&v);
    s.append(slash.as_str());
    s.append(path);
    proof {
        assert(s@ =~= proc_self_fd_prefix() + dec_digits(fd as nat) + seq!['/'] + path@);
    }
    Ok(s)
}

} // verus!
