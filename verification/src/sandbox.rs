//! The path sandbox: every path that a tool touches is a relative path
//! resolved against one fixed root, and a path with a `..` component is
//! refused.
//!
//! Paths are texts whose components are separated by `/`.

use crate::text::{append_text, chars_of};
use vstd::prelude::*;
use vstd::string::StringExecFns;

verus! {

/// The root directory that the tools work in, unless another is given.
pub const WORKSPACE_ROOT: &'static str = "/home/pc2dev/ai_workspace";

/// How the message of a refused path begins; the path follows.
pub const VIOLATION_PREFIX: &'static str = "Path must not contain '..' components: ";

/// Whether a component equal to `..` starts at index `i` of `path`: two
/// dots, with the start of the path or a `/` before them, and the end of
/// the path or a `/` after them.
pub open spec fn parent_component_at(path: Seq<char>, i: int) -> bool {
    &&& 0 <= i
    &&& i + 2 <= path.len()
    &&& path[i] == '.'
    &&& path[i + 1] == '.'
    &&& (i == 0 || path[i - 1] == '/')
    &&& (i + 2 == path.len() || path[i + 2] == '/')
}

/// Whether `path` has a component equal to `..`.
pub open spec fn has_parent_component(path: Seq<char>) -> bool {
    exists|i: int| parent_component_at(path, i)
}

/// The message with which `rel` is refused.
pub open spec fn violation_message(rel: Seq<char>) -> Seq<char> {
    VIOLATION_PREFIX@ + rel
}

/// `root` followed by `rel`, with one `/` between them unless `root` is
/// empty or already ends with one.
pub open spec fn joined(root: Seq<char>, rel: Seq<char>) -> Seq<char> {
    if root.len() == 0 || root.last() == '/' {
        root + rel
    } else {
        root + seq!['/'] + rel
    }
}

/// What resolving `rel` against `root` gives: the joined path, or the
/// violation message where `rel` has a `..` component.
pub open spec fn resolved(root: Seq<char>, rel: Seq<char>) -> Result<Seq<char>, Seq<char>> {
    if has_parent_component(rel) {
        Err(violation_message(rel))
    } else {
        Ok(joined(root, rel))
    }
}

/// The view of a resolution result.
pub open spec fn resolution_view(r: Result<String, String>) -> Result<Seq<char>, Seq<char>> {
    match r {
        Ok(path) => Ok(path@),
        Err(message) => Err(message@),
    }
}

/// Whether `chars` has a component equal to `..`.
fn scan_parent_component(chars: &Vec<char>) -> (found: bool)
    ensures
        found == has_parent_component(chars@),
{
    let n = chars.len();
    let mut i: usize = 0;
    while i < n
        invariant
            n == chars@.len(),
            i <= n,
            forall|j: int| 0 <= j < i ==> !parent_component_at(chars@, j),
        decreases n - i,
    {
        if chars[i] == '.' && i + 1 < n && chars[i + 1] == '.' && (i == 0 || chars[i - 1] == '/')
            && (i + 2 == n || chars[i + 2] == '/') {
            assert(parent_component_at(chars@, i as int));
            return true;
        }
        i = i + 1;
    }
    false
}

/// Checks that `rel` has no `..` component. The check reads the text of
/// the path alone: nothing is looked up on disk.
pub fn ensure_safe_relative(rel: &str) -> (r: Result<(), String>)
    ensures
        r is Err <==> has_parent_component(rel@),
        r matches Err(message) ==> message@ == violation_message(rel@),
{
    let chars = chars_of(rel);
    if scan_parent_component(&chars) {
        Err(append_text(VIOLATION_PREFIX, rel))
    } else {
        Ok(())
    }
}

/// A sandbox: the root directory under which every tool path lies.
pub struct Sandbox {
    root: String,
}

impl Sandbox {
    /// The root of the sandbox, as a text.
    pub closed spec fn root_text(&self) -> Seq<char> {
        self.root@
    }

    /// A sandbox with the given root.
    pub fn new(root: &str) -> (sandbox: Sandbox)
        ensures
            sandbox.root_text() == root@,
    {
        Sandbox { root: String::from_str(root) }
    }

    /// The sandbox at [`WORKSPACE_ROOT`].
    pub fn workspace() -> (sandbox: Sandbox)
        ensures
            sandbox.root_text() == WORKSPACE_ROOT@,
    {
        Sandbox::new(WORKSPACE_ROOT)
    }

    /// The root of the sandbox.
    pub fn root(&self) -> (root: &str)
        ensures
            root@ == self.root_text(),
    {
        self.root.as_str()
    }

    /// Resolves `rel` against the root: the root joined with `rel`, or the
    /// violation message where `rel` has a `..` component. The path is not
    /// canonicalised and nothing is looked up on disk.
    pub fn resolve(&self, rel: &str) -> (r: Result<String, String>)
        ensures
            resolution_view(r) == resolved(self.root_text(), rel@),
    {
        match ensure_safe_relative(rel) {
            Err(message) => Err(message),
            Ok(()) => {
                let chars = chars_of(self.root.as_str());
                let n = chars.len();
                let mut path = self.root.clone();
                if n > 0 && chars[n - 1] != '/' {
                    proof {
                        reveal_strlit("/");
                        assert("/"@ == seq!['/']);
                    }
                    path.append("/");
                }
                path.append(rel);
                Ok(path)
            },
        }
    }
}

/// Resolves `rel` against [`WORKSPACE_ROOT`].
pub fn resolve_workspace_path(rel: &str) -> (r: Result<String, String>)
    ensures
        resolution_view(r) == resolved(WORKSPACE_ROOT@, rel@),
{
    Sandbox::workspace().resolve(rel)
}

/// A `..` between two separators, or at either end of a path, is a `..`
/// component, whatever stands before and after it.
pub proof fn lemma_parent_component_anywhere(before: Seq<char>, after: Seq<char>)
    requires
        before.len() == 0 || before.last() == '/',
        after.len() == 0 || after.first() == '/',
    ensures
        has_parent_component(before + seq!['.', '.'] + after),
{
    let path = before + seq!['.', '.'] + after;
    assert(parent_component_at(path, before.len() as int));
}

/// A path with a `..` component is never resolved, against any root.
pub proof fn lemma_parent_component_refused(root: Seq<char>, rel: Seq<char>)
    requires
        has_parent_component(rel),
    ensures
        resolved(root, rel) == Err::<Seq<char>, Seq<char>>(violation_message(rel)),
{
}

/// The `..` components of two paths joined are those of the two paths.
pub proof fn lemma_joined_components(root: Seq<char>, rel: Seq<char>)
    ensures
        has_parent_component(joined(root, rel)) <==> has_parent_component(root)
            || has_parent_component(rel),
{
    let path = joined(root, rel);
    let shift = path.len() - rel.len();
    assert(forall|k: int| 0 <= k < root.len() ==> path[k] == root[k]);
    assert(forall|k: int| 0 <= k < rel.len() ==> path[shift + k] == rel[k]);
    if has_parent_component(root) {
        let i = choose|i: int| parent_component_at(root, i);
        assert(parent_component_at(path, i));
    }
    if has_parent_component(rel) {
        let i = choose|i: int| parent_component_at(rel, i);
        assert(parent_component_at(path, shift + i));
    }
    if has_parent_component(path) {
        let i = choose|i: int| parent_component_at(path, i);
        if i + 2 <= root.len() {
            assert(parent_component_at(root, i));
        } else {
            assert(parent_component_at(rel, i - shift));
        }
    }
}

/// A resolved path starts with the root, and has a `..` component only
/// where the root itself has one: no relative path leads out of the root.
pub proof fn lemma_resolved_under_root(root: Seq<char>, rel: Seq<char>)
    ensures
        resolved(root, rel) matches Ok(path) ==> root.is_prefix_of(path) && (has_parent_component(
            path,
        ) <==> has_parent_component(root)),
{
    if !has_parent_component(rel) {
        lemma_joined_components(root, rel);
        let path = joined(root, rel);
        assert(path.subrange(0, root.len() as int) =~= root);
    }
}

} // verus!
