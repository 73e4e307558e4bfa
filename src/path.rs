use vstd::prelude::*;

use crate::error::{HttpError, STATUS_NOT_FOUND};
use crate::text::{has_prefix, push_char, starts_with};

verus! {

/// `req` appended to `root` as one more path: an absolute `req` replaces `root`,
/// otherwise a single separator stands between them.
pub open spec fn joined(root: Seq<char>, req: Seq<char>) -> Seq<char> {
    if req.len() > 0 && req[0] == '/' {
        req
    } else if root.len() == 0 || root.last() == '/' {
        root + req
    } else {
        root.push('/') + req
    }
}

/// `p` lies in the tree under `root`, compared segment by segment: either the
/// two are equal, or `root` is followed in `p` by a separator (so `/a/bc` does
/// not lie under `/a/b`). Both are canonical paths: absolute, with no empty,
/// `.` or `..` segment and no trailing separator.
pub open spec fn within(p: Seq<char>, root: Seq<char>) -> bool {
    &&& has_prefix(p, root)
    &&& (p.len() == root.len() || (root.len() > 0 && root.last() == '/') || p[root.len() as int]
        == '/')
}

/// What a request resolves to, given what canonicalizing the joined path gave:
/// the canonical path when there is one and it lies under `root`, else nothing.
pub open spec fn resolution(canonical: Option<Seq<char>>, root: Seq<char>) -> Option<Seq<char>> {
    match canonical {
        Some(c) => if within(c, root) {
            Some(c)
        } else {
            None
        },
        None => None,
    }
}

/// The character sequence inside an optional string.
pub open spec fn view_opt(o: Option<String>) -> Option<Seq<char>> {
    match o {
        Some(s) => Some(s@),
        None => None,
    }
}

/// The message of a request that resolves to nothing: it names the request
/// alone, so a path outside the root reads as one that does not exist.
pub open spec fn not_found_text(req: Seq<char>) -> Seq<char> {
    "Path /"@ + req + " is not found"@
}

/// Joins a request path onto a root directory, with no segment stripped.
pub fn join_path(root: &str, req: &str) -> (r: String)
    ensures
        r@ == joined(root@, req@),
{
    let rn = root.unicode_len();
    let qn = req.unicode_len();
    if qn > 0 && req.get_char(0) == '/' {
        return String::from_str(req);
    }
    let mut s = String::from_str(root);
    if !(rn == 0 || root.get_char(rn - 1) == '/') {
        push_char(&mut s, '/');
    }
    s.append(req);
    s
}

/// Tests whether the canonical path `p` lies under `root` (see `within`).
pub fn is_within(p: &str, root: &str) -> (r: bool)
    ensures
        r == within(p@, root@),
{
    if !starts_with(p, root) {
        return false;
    }
    let pn = p.unicode_len();
    let rn = root.unicode_len();
    pn == rn || (rn > 0 && root.get_char(rn - 1) == '/') || p.get_char(rn) == '/'
}

/// Decides a request against `root`, given what canonicalizing the joined path
/// gave (`None` for any failure). Every failure and every path outside `root`
/// comes back as the same not-found error.
pub fn resolve(req: &str, canonical: Option<String>, root: &str) -> (r: Result<String, HttpError>)
    ensures
        r is Ok <==> resolution(view_opt(canonical), root@) is Some,
        r is Ok ==> r->Ok_0@ == resolution(view_opt(canonical), root@)->0,
        r is Err ==> r->Err_0.status == STATUS_NOT_FOUND,
        r is Err ==> r->Err_0.msg@ == not_found_text(req@),
{
    let mut msg = String::from_str("Path /");
    msg.append(req);
    msg.append(" is not found");
    match canonical {
        Some(c) => {
            if is_within(c.as_str(), root) {
                Ok(c)
            } else {
                Err(HttpError::not_found(msg))
            }
        },
        None => Err(HttpError::not_found(msg)),
    }
}

/// Whatever canonicalizing gave, a resolved path never lies outside the root.
pub proof fn lemma_resolution_confined(canonical: Option<Seq<char>>, root: Seq<char>)
    ensures
        resolution(canonical, root) is Some ==> within(resolution(canonical, root)->0, root),
{
}

/// A path beside the root that merely shares its leading characters (`/a/bc`
/// against `/a/b`) is not under it.
pub proof fn lemma_sibling_not_within(root: Seq<char>, p: Seq<char>)
    requires
        root.len() > 0,
        root.last() != '/',
        p.len() > root.len(),
        p[root.len() as int] != '/',
    ensures
        !within(p, root),
{
}

/// Resolving the same request twice against an unchanged filesystem, where
/// canonicalizing gives the same answer, yields the same resolution.
pub proof fn lemma_resolution_idempotent(
    first: Option<Seq<char>>,
    second: Option<Seq<char>>,
    root: Seq<char>,
)
    requires
        first == second,
    ensures
        resolution(first, root) == resolution(second, root),
{
}

} // verus!
