use vstd::prelude::*;

use crate::error::{HttpError, STATUS_NOT_FOUND};
use crate::path::{resolution, within};
use crate::text::{has_prefix, starts_with};

verus! {

/// What a resolved path is on disk.
#[derive(Clone, Copy, PartialEq, Eq, Structural)]
pub enum EntryKind {
    Directory,
    File,
    Other,
}

/// What to answer a request with, once its path is resolved.
pub enum Step {
    /// Stream the regular file at this path.
    Stream(String),
    /// Render the listing of the directory at this path.
    Render(String),
}

/// Where a request goes, as a spec value: stream or render a path, or not found.
pub enum Plan {
    Stream(Seq<char>),
    Render(Seq<char>),
    NotFound,
}

/// The request path names the reserved asset sub-tree `static`.
pub open spec fn is_asset_path(p: Seq<char>) -> bool {
    p == "static"@ || has_prefix(p, "static/"@)
}

/// The plan for a request against the content root: directories are listed,
/// regular files streamed, anything else is not found.
pub open spec fn content_plan(resolved: Option<Seq<char>>, kind: EntryKind) -> Plan {
    match resolved {
        None => Plan::NotFound,
        Some(p) => match kind {
            EntryKind::Directory => Plan::Render(p),
            EntryKind::File => Plan::Stream(p),
            EntryKind::Other => Plan::NotFound,
        },
    }
}

/// The plan for a request into the asset sub-tree: only regular files are served.
pub open spec fn asset_plan(resolved: Option<Seq<char>>, kind: EntryKind) -> Plan {
    match resolved {
        Some(p) => if kind == EntryKind::File {
            Plan::Stream(p)
        } else {
            Plan::NotFound
        },
        None => Plan::NotFound,
    }
}

/// `r` carries out plan `plan`.
pub open spec fn follows(r: Result<Step, HttpError>, plan: Plan) -> bool {
    match plan {
        Plan::Stream(p) => r is Ok && r->Ok_0 is Stream && r->Ok_0->Stream_0@ == p,
        Plan::Render(p) => r is Ok && r->Ok_0 is Render && r->Ok_0->Render_0@ == p,
        Plan::NotFound => r is Err && r->Err_0.status == STATUS_NOT_FOUND,
    }
}

/// The resolved path, when resolving succeeded.
pub open spec fn resolved_path(r: Result<String, HttpError>) -> Option<Seq<char>> {
    match r {
        Ok(p) => Some(p@),
        Err(_) => None,
    }
}

/// Tests whether a request path names the reserved asset sub-tree.
pub fn is_asset_request(p: &str) -> (r: bool)
    ensures
        r == is_asset_path(p@),
{
    let len = p.unicode_len();
    let prefixed = starts_with(p, "static");
    let nested = starts_with(p, "static/");
    proof {
        reveal_strlit("static");
        assert("static"@.len() == 6);
        if len == 6 && prefixed {
            assert(p@ =~= p@.subrange(0, 6));
        }
        if p@ == "static"@ {
            assert(p@.subrange(0, 6) =~= p@);
        }
    }
    (len == 6 && prefixed) || nested
}

fn not_found(resolved: Result<String, HttpError>) -> (r: HttpError)
    ensures
        r.status == STATUS_NOT_FOUND,
{
    match resolved {
        Ok(p) => {
            let mut msg = String::from_str("Path /");
            msg.append(p.as_str());
            msg.append(" is not found");
            HttpError::not_found(msg)
        },
        Err(e) => HttpError::not_found(e.msg),
    }
}

/// Decides a request against the content root, given how it resolved and
/// what the resolved path is on disk.
pub fn content_step(resolved: Result<String, HttpError>, kind: EntryKind) -> (r: Result<
    Step,
    HttpError,
>)
    ensures
        follows(r, content_plan(resolved_path(resolved), kind)),
{
    match resolved {
        Ok(p) => match kind {
            EntryKind::Directory => Ok(Step::Render(p)),
            EntryKind::File => Ok(Step::Stream(p)),
            EntryKind::Other => Err(not_found(Ok(p))),
        },
        Err(e) => Err(not_found(Err(e))),
    }
}

/// Decides a request into the asset sub-tree, given how it resolved and what
/// the resolved path is on disk.
pub fn asset_step(resolved: Result<String, HttpError>, kind: EntryKind) -> (r: Result<
    Step,
    HttpError,
>)
    ensures
        follows(r, asset_plan(resolved_path(resolved), kind)),
{
    match resolved {
        Ok(p) => if kind == EntryKind::File {
            Ok(Step::Stream(p))
        } else {
            Err(not_found(Ok(p)))
        },
        Err(e) => Err(not_found(Err(e))),
    }
}

/// Resolving the same request twice against an unchanged filesystem, where
/// canonicalizing gives the same answer and the entry has the same kind,
/// leads to the same path and the same classification.
pub proof fn lemma_classification_idempotent(
    first: Option<Seq<char>>,
    second: Option<Seq<char>>,
    root: Seq<char>,
    kind: EntryKind,
)
    requires
        first == second,
    ensures
        content_plan(resolution(first, root), kind) == content_plan(resolution(second, root), kind),
        asset_plan(resolution(first, root), kind) == asset_plan(resolution(second, root), kind),
{
}

/// Whatever the filesystem answers, a request is only ever streamed or
/// listed at a path under the root it was resolved against.
pub proof fn lemma_plan_confined(canonical: Option<Seq<char>>, root: Seq<char>, kind: EntryKind)
    ensures
        content_plan(resolution(canonical, root), kind) matches Plan::Stream(p) ==> within(p, root),
        content_plan(resolution(canonical, root), kind) matches Plan::Render(p) ==> within(p, root),
        asset_plan(resolution(canonical, root), kind) matches Plan::Stream(p) ==> within(p, root),
{
}

} // verus!
