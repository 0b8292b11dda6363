//! Sandboxed path resolution.
//!
//! Paths are byte strings. A client-facing logical path is rooted at the
//! server root and written `/a/b`; the server root itself is an absolute
//! filesystem path fixed at startup. The adapter around this library joins a
//! candidate onto the server root and canonicalizes it against the real
//! filesystem (resolving `.`, `..` and symlinks); the functions here build
//! that candidate and decide — exactly — whether the canonical result is the
//! server root or a strict descendant of it. Whatever the filesystem
//! answers, no path that escapes the root is ever accepted.

use vstd::prelude::*;
use crate::ascii::{bytes_eq, subvec, SLASH};

verus! {

/// Why a path was rejected.
#[derive(Debug, Clone, Copy, PartialEq, Eq, Structural)]
pub enum PathError {
    /// The canonical path is not the server root nor a descendant of it.
    OutsideRoot,
    /// The path does not exist, so canonicalization failed.
    NotFound,
    /// The canonical target exists but is not a directory.
    NotADirectory,
}

/// A rooted path: nonempty and starting with `/`.
pub open spec fn rooted(p: Seq<u8>) -> bool {
    p.len() > 0 && p[0] == SLASH
}

/// The server root as a logical path: the single byte `/`.
pub open spec fn root_path() -> Seq<u8> {
    seq![SLASH]
}

/// Holds when `p` is a strict descendant of `root`: `root` is a proper
/// prefix of `p` at a path-component boundary. Matching whole components —
/// not mere string prefixes — keeps a sibling such as `/srv-backup` from
/// passing for a descendant of `/srv`.
pub open spec fn strict_inside(root: Seq<u8>, p: Seq<u8>) -> bool {
    if root == root_path() {
        rooted(p) && p != root
    } else {
        p.len() > root.len() && p.take(root.len() as int) == root && p[root.len() as int] == SLASH
    }
}

/// Holds when `p` is the root itself or a strict descendant of it.
pub open spec fn in_root(root: Seq<u8>, p: Seq<u8>) -> bool {
    p == root || strict_inside(root, p)
}

/// The logical path of `p` relative to `root`, for a `p` inside `root`:
/// rooted at `/`, it becomes the session's new working directory.
pub open spec fn rel_of(root: Seq<u8>, p: Seq<u8>) -> Seq<u8> {
    if p == root {
        root_path()
    } else if root == root_path() {
        p
    } else {
        p.skip(root.len() as int)
    }
}

/// Decides whether the canonical path `canon` lies inside the server root
/// `root`, and on success returns the logical path of `canon` relative to
/// `root`. This is the sandbox gate: every path handed back to a caller has
/// been accepted here, whatever the filesystem made of the request.
pub fn check_under_root(root: &Vec<u8>, canon: &Vec<u8>) -> (r: Result<Vec<u8>, PathError>)
    ensures
        r is Ok <==> rooted(root@) && in_root(root@, canon@),
        r matches Ok(rel) ==> rel@ == rel_of(root@, canon@) && rooted(rel@),
        r matches Err(e) ==> e == PathError::OutsideRoot,
{
    if root.len() == 0 {
        return Err(PathError::OutsideRoot);
    }
    if root[0] != SLASH {
        return Err(PathError::OutsideRoot);
    }
    if bytes_eq(root.as_slice(), canon.as_slice()) {
        let mut rel: Vec<u8> = Vec::new();
        rel.push(SLASH);
        assert(rel@ =~= root_path());
        return Ok(rel);
    }
    if root.len() == 1 {
        // The server root is `/` itself: any rooted canonical path is inside.
        assert(root@ =~= root_path());
        if canon.len() > 0 && canon[0] == SLASH {
            return Ok(subvec(canon, 0, canon.len()));
        } else {
            return Err(PathError::OutsideRoot);
        }
    }
    assert(root@ != root_path());
    if canon.len() > root.len() {
        let prefix = subvec(canon, 0, root.len());
        if bytes_eq(prefix.as_slice(), root.as_slice()) && canon[root.len()] == SLASH {
            let rel = subvec(canon, root.len(), canon.len());
            assert(rel@ =~= canon@.skip(root@.len() as int));
            assert(rel@[0] == canon@[root@.len() as int]);
            return Ok(rel);
        }
    }
    Err(PathError::OutsideRoot)
}

/// Builds the candidate logical path for a request: a rooted request stands
/// alone; any other is joined onto the current directory with a `/` between
/// them unless the current directory already ends with one.
pub open spec fn spec_join(cwd: Seq<u8>, req: Seq<u8>) -> Seq<u8> {
    if rooted(req) {
        req
    } else if cwd.len() > 0 && cwd[cwd.len() - 1] == SLASH {
        cwd + req
    } else {
        cwd + seq![SLASH] + req
    }
}

/// Joins a requested path onto the current directory (see `spec_join`). The
/// result is the candidate the adapter canonicalizes against the server
/// root; it may still contain `.` or `..`, which only the filesystem can
/// settle once symlinks are possible.
pub fn join_candidate(cwd: &Vec<u8>, req: &Vec<u8>) -> (r: Vec<u8>)
    ensures
        r@ == spec_join(cwd@, req@),
{
    if req.len() > 0 && req[0] == SLASH {
        return subvec(req, 0, req.len());
    }
    let mut r = subvec(cwd, 0, cwd.len());
    if !(cwd.len() > 0 && cwd[cwd.len() - 1] == SLASH) {
        r.push(SLASH);
    }
    let mut i: usize = 0;
    while i < req.len()
        invariant
            i <= req@.len(),
            r@ =~= spec_join(cwd@, req@.take(0)) + req@.take(i as int),
        decreases req@.len() - i,
    {
        r.push(req[i]);
        assert(r@ =~= spec_join(cwd@, req@.take(0)) + req@.take(i + 1));
        i = i + 1;
    }
    assert(r@ =~= spec_join(cwd@, req@));
    r
}

/// The index of the last `/` of `p`, or `-1` when `p` has none.
pub open spec fn last_slash(p: Seq<u8>) -> int
    decreases p.len(),
{
    if p.len() == 0 {
        -1
    } else if p[p.len() - 1] == SLASH {
        p.len() - 1
    } else {
        last_slash(p.drop_last())
    }
}

/// The parent of a rooted logical path: everything before the last `/`, and
/// the root `/` when nothing is left. The parent of the root is the root.
pub open spec fn spec_parent(p: Seq<u8>) -> Seq<u8> {
    if last_slash(p) <= 0 {
        root_path()
    } else {
        p.take(last_slash(p))
    }
}

/// Computes the parent of a logical path (see `spec_parent`).
pub fn parent_of(p: &Vec<u8>) -> (r: Vec<u8>)
    ensures
        r@ == spec_parent(p@),
{
    let mut i: usize = p.len();
    assert(p@.take(p@.len() as int) =~= p@);
    while i > 0 && p[i - 1] != SLASH
        invariant
            i <= p@.len(),
            last_slash(p@) == last_slash(p@.take(i as int)),
        decreases i,
    {
        proof {
            assert(p@.take(i as int).drop_last() =~= p@.take(i - 1));
        }
        i = i - 1;
    }
    proof {
        if i == 0 {
            assert(p@.take(0).len() == 0);
            assert(last_slash(p@) == -1);
        } else {
            assert(p@.take(i as int)[i - 1] == SLASH);
            assert(last_slash(p@.take(i as int)) == i - 1);
        }
    }
    if i <= 1 {
        let mut r: Vec<u8> = Vec::new();
        r.push(SLASH);
        assert(r@ =~= root_path());
        r
    } else {
        subvec(p, 0, i - 1)
    }
}

/// The base name of a path: everything after its last `/`, or the whole
/// path when it has none.
pub open spec fn spec_base_name(p: Seq<u8>) -> Seq<u8> {
    p.skip(last_slash(p) + 1)
}

/// Extracts the base name of a path (see `spec_base_name`).
pub fn base_name(p: &Vec<u8>) -> (r: Vec<u8>)
    ensures
        r@ == spec_base_name(p@),
{
    let mut i: usize = p.len();
    assert(p@.take(p@.len() as int) =~= p@);
    while i > 0 && p[i - 1] != SLASH
        invariant
            i <= p@.len(),
            last_slash(p@) == last_slash(p@.take(i as int)),
        decreases i,
    {
        proof {
            assert(p@.take(i as int).drop_last() =~= p@.take(i - 1));
        }
        i = i - 1;
    }
    proof {
        if i == 0 {
            assert(p@.take(0).len() == 0);
            assert(last_slash(p@) == -1);
        } else {
            assert(p@.take(i as int)[i - 1] == SLASH);
            assert(last_slash(p@.take(i as int)) == i - 1);
        }
    }
    let r = subvec(p, i, p.len());
    assert(r@ =~= spec_base_name(p@));
    r
}

/// Law: the parent of the server root is the server root itself, so moving
/// to the parent directory is idempotent at the root.
pub proof fn lemma_parent_of_root_is_root()
    ensures
        spec_parent(root_path()) == root_path(),
{
    assert(last_slash(root_path()) == 0);
}

/// Law: a rooted path's parent is rooted, so walking upward never leaves
/// the space of rooted logical paths.
pub proof fn lemma_parent_keeps_rooted(p: Seq<u8>)
    requires
        rooted(p),
    ensures
        rooted(spec_parent(p)),
{
    if last_slash(p) > 0 {
        assert(p.take(last_slash(p))[0] == SLASH) by {
            lemma_last_slash_in_range(p);
        }
        assert(p.take(last_slash(p)).len() > 0) by {
            lemma_last_slash_in_range(p);
        }
    }
}

/// The last-slash index lies within the path, and a rooted path always has
/// one.
proof fn lemma_last_slash_in_range(p: Seq<u8>)
    ensures
        last_slash(p) < p.len(),
        rooted(p) ==> 0 <= last_slash(p) && p[last_slash(p)] == SLASH,
    decreases p.len(),
{
    if p.len() == 0 {
    } else if p[p.len() - 1] == SLASH {
    } else {
        lemma_last_slash_in_range(p.drop_last());
        if rooted(p) {
            assert(p.drop_last()[0] == SLASH);
        }
    }
}

/// Law: a path accepted by the containment check extends the server root at
/// a component boundary — it is the root itself, or the root followed by a
/// rooted relative path. No accepted path escapes the root, and no sibling
/// of the root that merely shares its spelling is accepted.
pub proof fn lemma_accepted_path_extends_root(root: Seq<u8>, canon: Seq<u8>)
    requires
        rooted(root),
        in_root(root, canon),
    ensures
        rooted(canon),
        canon == root || (rel_of(root, canon).len() > 0 && rel_of(root, canon)[0] == SLASH
            && canon == (if root == root_path() {
            rel_of(root, canon)
        } else {
            root + rel_of(root, canon)
        })),
{
    if canon != root {
        if root == root_path() {
        } else {
            assert(canon =~= root + canon.skip(root.len() as int));
            assert(rel_of(root, canon)[0] == canon[root.len() as int]);
        }
    }
}

/// The absolute filesystem path a logical path denotes: the server root
/// with the logical path appended (the logical root `/` denotes the server
/// root itself).
pub open spec fn spec_abs_of(root: Seq<u8>, rel: Seq<u8>) -> Seq<u8> {
    if rel == root_path() {
        root
    } else if root == root_path() {
        rel
    } else {
        root + rel
    }
}

/// Law: a rooted logical path glued back onto the server root lands inside
/// the root — every well-formed current directory denotes the server root
/// or a strict descendant of it.
pub proof fn lemma_logical_path_denotes_inside(root: Seq<u8>, rel: Seq<u8>)
    requires
        rooted(root),
        rooted(rel),
    ensures
        in_root(root, spec_abs_of(root, rel)),
{
    if rel != root_path() && root != root_path() {
        let p = root + rel;
        assert(p.take(root.len() as int) =~= root);
        assert(p[root.len() as int] == rel[0]);
        assert(p != root) by {
            assert(p.len() > root.len());
        }
    }
}

/// Law: a sibling directory whose name merely begins with the root's bytes
/// — `/srv-backup` beside a root `/srv` — is not inside the root.
pub proof fn lemma_sibling_prefix_rejected(root: Seq<u8>, canon: Seq<u8>)
    requires
        rooted(root),
        root != root_path(),
        canon.len() > root.len(),
        canon.take(root.len() as int) == root,
        canon[root.len() as int] != SLASH,
    ensures
        !in_root(root, canon),
{
    assert(canon != root);
}

} // verus!
