//! Recursive directory traversal with sorting, mount-boundary awareness
//! and early-exit control.
//!
//! Per entry the walker builds an ephemeral descriptor and asks the
//! callback how to go on. The two answers are interpreted asymmetrically:
//! a break on a non-directory aborts the entire walk at once, while a
//! break on a directory only skips that directory's subtree and goes on
//! with its siblings. That interpretation is a verified decision function
//! ([`walk_step`]), and the module's laws state what it makes a whole
//! walk visit over a model of the directory tree.

use vstd::prelude::*;

verus! {

use crate::errors::Error;
use crate::pathutil::join_path;
use crate::sys;
use vstd::multiset::Multiset;

broadcast use vstd::seq_lib::group_to_multiset_ensures;

/// A callback's answer: go on, or break off.
#[derive(Clone, Copy, Debug, PartialEq, Eq, Structural)]
pub enum WalkFlow {
    /// Keep walking.
    Continue,
    /// Break off: abort the walk on a non-directory, skip the subtree on
    /// a directory.
    Break,
}

/// What the walker does after a callback's answer.
#[derive(Clone, Copy, Debug, PartialEq, Eq, Structural)]
pub enum WalkAction {
    /// Stop the entire walk at once.
    Abort,
    /// Go on with the next sibling, without descending.
    NextSibling,
    /// Descend into the entry's children, then go on with its siblings.
    Recurse,
}

/// The walker's step decision. The asymmetry is deliberate: a break on a
/// non-directory aborts the whole walk, a break on a directory only
/// prunes that directory's subtree.
pub open spec fn walk_step_spec(is_dir: bool, flow: WalkFlow) -> WalkAction {
    match flow {
        WalkFlow::Break => if is_dir {
            WalkAction::NextSibling
        } else {
            WalkAction::Abort
        },
        WalkFlow::Continue => if is_dir {
            WalkAction::Recurse
        } else {
            WalkAction::NextSibling
        },
    }
}

/// Decide what to do after a callback's answer, exactly as
/// [`walk_step_spec`] states.
pub fn walk_step(is_dir: bool, flow: WalkFlow) -> (a: WalkAction)
    ensures
        a == walk_step_spec(is_dir, flow),
{
    match flow {
        WalkFlow::Break => if is_dir {
            WalkAction::NextSibling
        } else {
            WalkAction::Abort
        },
        WalkFlow::Continue => if is_dir {
            WalkAction::Recurse
        } else {
            WalkAction::NextSibling
        },
    }
}

/// A directory entry as the callback sees it, alive for one callback
/// invocation only.
pub struct WalkComponent<'a> {
    /// The relative path to the entry, filename included. Purely
    /// informative: the traversal computes it but never resolves it.
    pub path: &'a str,
    /// The parent directory.
    pub dir: &'a cap_std::fs::Dir,
    /// The filename of the entry, also present at the end of `path`.
    pub filename: &'a str,
    /// The entry's file type.
    pub file_type: &'a cap_std::fs::FileType,
    /// The raw directory entry.
    pub entry: &'a cap_std::fs::DirEntry,
}

/// What a walk callback decides per entry.
pub trait WalkCallback {
    /// Inspect one entry and answer how to go on, or abort the walk with
    /// an error.
    fn visit(&mut self, component: &WalkComponent) -> Result<WalkFlow, Error>;
}

/// Options controlling a recursive walk.
#[derive(Debug, Default)]
pub struct WalkConfiguration {
    /// Do not cross filesystem mount boundaries: a child directory on
    /// another filesystem is silently skipped.
    pub noxdev: bool,
    /// The base for the path reported to the callback. It has no effect
    /// on the traversal itself.
    pub path_base: Option<String>,
    /// Visit each directory's entries sorted by file name.
    pub sort_by_file_name: bool,
}

impl WalkConfiguration {
    /// A configuration with everything off.
    pub fn new() -> (r: WalkConfiguration)
        ensures
            !r.noxdev,
            r.path_base is None,
            !r.sort_by_file_name,
    {
        WalkConfiguration { noxdev: false, path_base: None, sort_by_file_name: false }
    }

    /// Do not traverse across mount points.
    pub fn noxdev(self) -> (r: WalkConfiguration)
        ensures
            r.noxdev,
            r.path_base == self.path_base,
            r.sort_by_file_name == self.sort_by_file_name,
    {
        WalkConfiguration { noxdev: true, ..self }
    }

    /// Visit directory entries sorted by file name.
    pub fn sort_by_file_name(self) -> (r: WalkConfiguration)
        ensures
            r.sort_by_file_name,
            r.noxdev == self.noxdev,
            r.path_base == self.path_base,
    {
        WalkConfiguration { sort_by_file_name: true, ..self }
    }

    /// Report paths with the given base prefix. The traversal itself is
    /// unaffected.
    pub fn path_base(self, base: &str) -> (r: WalkConfiguration)
        ensures
            r.path_base matches Some(b) && b@ == base@,
            r.noxdev == self.noxdev,
            r.sort_by_file_name == self.sort_by_file_name,
    {
        WalkConfiguration { path_base: Some(base.to_owned()), ..self }
    }
}

/// Lexicographic order on character sequences.
pub open spec fn lex_le(a: Seq<char>, b: Seq<char>) -> bool
    decreases a.len(),
{
    if a.len() == 0 {
        true
    } else if b.len() == 0 {
        false
    } else if a[0] < b[0] {
        true
    } else if b[0] < a[0] {
        false
    } else {
        lex_le(a.drop_first(), b.drop_first())
    }
}

pub(crate) proof fn lemma_lex_le_total(a: Seq<char>, b: Seq<char>)
    ensures
        lex_le(a, b) || lex_le(b, a),
    decreases a.len(),
{
    if a.len() > 0 && b.len() > 0 && !(a[0] < b[0]) && !(b[0] < a[0]) {
        lemma_lex_le_total(a.drop_first(), b.drop_first());
    }
}

pub(crate) proof fn lemma_lex_le_trans(a: Seq<char>, b: Seq<char>, c: Seq<char>)
    requires
        lex_le(a, b),
        lex_le(b, c),
    ensures
        lex_le(a, c),
    decreases a.len(),
{
    if a.len() > 0 && b.len() > 0 && c.len() > 0 && !(a[0] < b[0]) && !(b[0] < a[0]) && !(b[0]
        < c[0]) && !(c[0] < b[0]) {
        lemma_lex_le_trans(a.drop_first(), b.drop_first(), c.drop_first());
    }
}

/// Compare two strings lexicographically by character.
pub(crate) fn str_lex_le(a: &str, b: &str) -> (r: bool)
    ensures
        r == lex_le(a@, b@),
{
    let ca = crate::pathutil::chars_of(a);
    let cb = crate::pathutil::chars_of(b);
    let la = ca.len();
    let lb = cb.len();
    let mut i: usize = 0;
    proof {
        assert(a@.subrange(0, la as int) =~= a@);
        assert(b@.subrange(0, lb as int) =~= b@);
    }
    while i < la && i < lb
        invariant
            i <= la,
            i <= lb,
            la == a@.len(),
            lb == b@.len(),
            ca@ == a@,
            cb@ == b@,
            lex_le(a@, b@) == lex_le(
                a@.subrange(i as int, la as int),
                b@.subrange(i as int, lb as int),
            ),
        decreases la - i,
    {
        let x = ca[i];
        let y = cb[i];
        if x < y {
            return true;
        }
        if y < x {
            return false;
        }
        proof {
            assert(a@.subrange(i as int, la as int).drop_first() =~= a@.subrange(
                i as int + 1,
                la as int,
            ));
            assert(b@.subrange(i as int, lb as int).drop_first() =~= b@.subrange(
                i as int + 1,
                lb as int,
            ));
        }
        i += 1;
    }
    proof {
        if i == la {
            assert(a@.subrange(i as int, la as int).len() == 0);
        } else {
            assert(b@.subrange(i as int, lb as int).len() == 0);
            assert(a@.subrange(i as int, la as int).len() > 0);
        }
    }
    i == la
}

/// Sort a level's entries by name: the result holds the same pairs and
/// its names are in lexicographic order.
pub(crate) fn sort_by_name<T>(v: Vec<(String, T)>) -> (r: Vec<(String, T)>)
    ensures
        r@.to_multiset() == v@.to_multiset(),
        forall|p: int, q: int|
            0 <= p <= q < r@.len() ==> lex_le(r@[p].0@, r@[q].0@),
{
    let mut rem = v;
    let mut out: Vec<(String, T)> = Vec::new();
    while rem.len() > 0
        invariant
            out@.to_multiset().add(rem@.to_multiset()) == v@.to_multiset(),
            forall|p: int, q: int| 0 <= p <= q < out@.len() ==> lex_le(out@[p].0@, out@[q].0@),
            forall|p: int, q: int|
                0 <= p < out@.len() && 0 <= q < rem@.len() ==> lex_le(out@[p].0@, rem@[q].0@),
        decreases rem.len(),
    {
        // Find the least remaining name.
        let mut best: usize = 0;
        let mut j: usize = 1;
        proof {
            lemma_lex_le_total(rem@[0].0@, rem@[0].0@);
        }
        while j < rem.len()
            invariant
                best < j <= rem.len(),
                rem.len() > 0,
                forall|k: int| 0 <= k < j ==> lex_le(rem@[best as int].0@, rem@[k].0@),
            decreases rem.len() - j,
        {
            if str_lex_le(rem[j].0.as_str(), rem[best].0.as_str()) {
                proof {
                    assert forall|k: int| 0 <= k < j + 1 implies lex_le(
                        rem@[j as int].0@,
                        rem@[k].0@,
                    ) by {
                        if k < j {
                            lemma_lex_le_trans(rem@[j as int].0@, rem@[best as int].0@, rem@[k].0@);
                        } else {
                            lemma_lex_le_total(rem@[j as int].0@, rem@[j as int].0@);
                        }
                    }
                }
                best = j;
            } else {
                proof {
                    lemma_lex_le_total(rem@[j as int].0@, rem@[best as int].0@);
                }
            }
            j += 1;
        }
        let ghost old_rem = rem@;
        let ghost old_out = out@;
        let item = rem.remove(best);
        out.push(item);
        proof {
            assert(old_rem.contains(old_rem[best as int]));
            assert(out@.to_multiset() =~= old_out.to_multiset().insert(old_rem[best as int]));
            assert(rem@.to_multiset() =~= old_rem.to_multiset().remove(old_rem[best as int]));
            assert(out@.to_multiset().add(rem@.to_multiset()) =~= old_out.to_multiset().add(
                old_rem.to_multiset(),
            ));
            assert forall|p: int, q: int|
                0 <= p < out@.len() && 0 <= q < rem@.len() implies lex_le(
                out@[p].0@,
                rem@[q].0@,
            ) by {
                let orig_q = if q < best as int {
                    q
                } else {
                    q + 1
                };
                assert(rem@[q] == old_rem[orig_q]);
                if p < out@.len() - 1 {
                    assert(lex_le(out@[p].0@, old_rem[orig_q].0@));
                } else {
                    assert(out@[p] == old_rem[best as int]);
                    assert(lex_le(old_rem[best as int].0@, old_rem[orig_q].0@));
                }
            }
        }
    }
    proof {
        assert(rem@.to_multiset() =~= Multiset::<(String, T)>::empty());
        assert(out@.to_multiset() =~= v@.to_multiset());
    }
    out
}

/// Read one directory level: each entry beside its file name, in the
/// filesystem's order, or sorted by name when the configuration asks for
/// it.
fn level_entries(d: &cap_std::fs::Dir, sort: bool) -> (r: Result<
    Vec<(String, cap_std::fs::DirEntry)>,
    Error,
>)
    ensures
        sort ==> (r matches Ok(v) ==> forall|p: int, q: int|
            0 <= p <= q < v@.len() ==> lex_le(v@[p].0@, v@[q].0@)),
{
    let mut entries = sys::dir_entries_list(d)?;
    let mut named: Vec<(String, cap_std::fs::DirEntry)> = Vec::new();
    while entries.len() > 0
        decreases entries.len(),
    {
        let e = entries.remove(0);
        let name = sys::entry_file_name(&e)?;
        named.push((name, e));
    }
    if sort {
        Ok(sort_by_name(named))
    } else {
        Ok(named)
    }
}

/// Walk the directory's entries depth-first, invoking the callback per
/// entry and following its decisions as [`walk_step_spec`] states:
/// `Ok(false)` reports that the walk was aborted by a break on a
/// non-directory, `Ok(true)` that this level was fully processed. `depth`
/// bounds the recursion so that it has a termination measure; a deeper
/// tree is reported as an error.
fn walk_inner<C: WalkCallback>(
    d: &cap_std::fs::Dir,
    base: &str,
    depth: u32,
    callback: &mut C,
    config: &WalkConfiguration,
) -> Result<bool, Error>
    decreases depth,
{
    let named = level_entries(d, config.sort_by_file_name)?;
    let mut i: usize = 0;
    while i < named.len()
        decreases named.len() - i,
    {
        let name = named[i].0.as_str();
        let ty = sys::entry_file_type(&named[i].1)?;
        let is_dir = sys::file_type_is_dir(&ty);
        let path = join_path(base, name);
        let component = WalkComponent {
            path: path.as_str(),
            dir: d,
            filename: name,
            file_type: &ty,
            entry: &named[i].1,
        };
        let flow = callback.visit(&component)?;
        match walk_step(is_dir, flow) {
            WalkAction::Abort => {
                return Ok(false);
            },
            WalkAction::NextSibling => {},
            WalkAction::Recurse => {
                // Open the child, skipping it silently when crossing a
                // mount boundary is forbidden and it lies across one.
                let child = if config.noxdev {
                    crate::dirext::impl_open_dir_noxdev(d, name)?
                } else {
                    Some(sys::entry_open_dir(&named[i].1)?)
                };
                if let Some(child) = child {
                    if depth == 0 {
                        return Err(
                            Error::new(
                                crate::errors::ErrorKind::Other,
                                "directory tree too deep".to_owned(),
                            ),
                        );
                    }
                    let kept = walk_inner(&child, path.as_str(), depth - 1, callback, config)?;
                    if !kept {
                        return Ok(false);
                    }
                }
            },
        }
        i += 1;
    }
    Ok(true)
}

/// Recursively walk a directory with the given configuration and
/// callback.
pub fn walk_dir<C: WalkCallback>(
    d: &cap_std::fs::Dir,
    config: &WalkConfiguration,
    callback: &mut C,
) -> Result<(), Error> {
    // Whether the walk ran to completion or was aborted by a break on a
    // non-directory, it succeeded.
    match &config.path_base {
        Some(b) => {
            walk_inner(d, b.as_str(), u32::MAX, callback, config)?;
        },
        None => {
            walk_inner(d, "", u32::MAX, callback, config)?;
        },
    }
    Ok(())
}

// ---------------------------------------------------------------------
// A model of a walk over a directory tree, for stating what the step
// decision makes a whole traversal visit.
// ---------------------------------------------------------------------

/// A directory tree: an entry is a leaf (a file or symlink) or a branch
/// (a directory) with an ordered forest of children.
pub enum TreeNode {
    /// A file or symlink: visited, never descended into.
    Leaf,
    /// A directory with its children.
    Branch(Box<Forest>),
}

/// An ordered sequence of sibling entries.
pub enum Forest {
    /// No more siblings.
    Nil,
    /// A first entry and the siblings after it.
    Cons(TreeNode, Box<Forest>),
}

/// The number of entries in a tree, the root included.
pub open spec fn tree_size(t: TreeNode) -> nat
    decreases t,
{
    match t {
        TreeNode::Leaf => 1nat,
        TreeNode::Branch(children) => 1nat + forest_size(*children),
    }
}

/// The number of entries in a forest.
pub open spec fn forest_size(f: Forest) -> nat
    decreases f,
{
    match f {
        Forest::Nil => 0nat,
        Forest::Cons(t, rest) => tree_size(t) + forest_size(*rest),
    }
}

/// The children of an entry: a leaf has none.
pub open spec fn children_of(t: TreeNode) -> Forest {
    match t {
        TreeNode::Leaf => Forest::Nil,
        TreeNode::Branch(children) => *children,
    }
}

/// A model walk over a forest, with the callback's answers given by the
/// oracle `d`: the number of entries visited, and whether the walk was
/// aborted by a break on a leaf. Every entry is visited before its
/// children, each decision is interpreted by [`walk_step_spec`], and an
/// abort inside a subtree stops the enclosing levels too.
pub open spec fn walk_forest(f: Forest, d: spec_fn(TreeNode) -> WalkFlow) -> (nat, bool)
    decreases f,
{
    match f {
        Forest::Nil => (0nat, false),
        Forest::Cons(t, rest) => {
            match walk_step_spec(t is Branch, d(t)) {
                WalkAction::Abort => (1nat, true),
                WalkAction::NextSibling => {
                    let r = walk_forest(*rest, d);
                    (1nat + r.0, r.1)
                },
                WalkAction::Recurse => {
                    let c = walk_forest(children_of(t), d);
                    if c.1 {
                        (1nat + c.0, true)
                    } else {
                        let r = walk_forest(*rest, d);
                        (1nat + c.0 + r.0, r.1)
                    }
                },
            }
        },
    }
}

/// A walk whose callback always answers `Continue` visits every entry of
/// the tree exactly once — directories, files and symlinks alike — and is
/// never aborted.
pub proof fn lemma_walk_all_continue_visits_everything(f: Forest, d: spec_fn(TreeNode) -> WalkFlow)
    requires
        forall|t: TreeNode| #[trigger] d(t) == WalkFlow::Continue,
    ensures
        walk_forest(f, d).0 == forest_size(f),
        !walk_forest(f, d).1,
    decreases f,
{
    match f {
        Forest::Nil => {},
        Forest::Cons(t, rest) => {
            match t {
                TreeNode::Leaf => {
                    lemma_walk_all_continue_visits_everything(*rest, d);
                    assert(walk_step_spec(t is Branch, d(t)) == WalkAction::NextSibling);
                    assert(forest_size(Forest::Cons(t, rest)) == tree_size(t) + forest_size(*rest));
                },
                TreeNode::Branch(children) => {
                    lemma_walk_all_continue_visits_everything(*children, d);
                    lemma_walk_all_continue_visits_everything(*rest, d);
                    assert(children_of(t) == *children);
                    assert(walk_step_spec(t is Branch, d(t)) == WalkAction::Recurse);
                    assert(forest_size(Forest::Cons(t, rest)) == tree_size(t) + forest_size(*rest));
                },
            }
        },
    }
}

/// A break on a directory skips that directory's descendants and nothing
/// else: the directory itself still counts as visited, its siblings are
/// walked exactly as they would be on their own, and the children never
/// influence the outcome.
pub proof fn lemma_walk_break_dir_skips_subtree(
    children: Box<Forest>,
    rest: Box<Forest>,
    d: spec_fn(TreeNode) -> WalkFlow,
)
    requires
        d(TreeNode::Branch(children)) == WalkFlow::Break,
    ensures
        walk_forest(Forest::Cons(TreeNode::Branch(children), rest), d).0 == 1nat + walk_forest(
            *rest,
            d,
        ).0,
        walk_forest(Forest::Cons(TreeNode::Branch(children), rest), d).1 == walk_forest(
            *rest,
            d,
        ).1,
{
}

/// A break on a leaf halts the entire walk at once: the breaking entry is
/// the last one visited, its siblings are never reached, and the abort is
/// reported outward so that no enclosing level goes on either.
pub proof fn lemma_walk_break_leaf_halts(rest: Box<Forest>, d: spec_fn(TreeNode) -> WalkFlow)
    requires
        d(TreeNode::Leaf) == WalkFlow::Break,
    ensures
        walk_forest(Forest::Cons(TreeNode::Leaf, rest), d).0 == 1nat,
        walk_forest(Forest::Cons(TreeNode::Leaf, rest), d).1,
{
}

/// An abort inside a child directory stops the enclosing level too: the
/// siblings after the directory are never visited.
pub proof fn lemma_walk_abort_propagates(
    children: Box<Forest>,
    rest: Box<Forest>,
    d: spec_fn(TreeNode) -> WalkFlow,
)
    requires
        d(TreeNode::Branch(children)) == WalkFlow::Continue,
        walk_forest(*children, d).1,
    ensures
        walk_forest(Forest::Cons(TreeNode::Branch(children), rest), d).0 == 1nat + walk_forest(
            *children,
            d,
        ).0,
        walk_forest(Forest::Cons(TreeNode::Branch(children), rest), d).1,
{
}

} // verus!
