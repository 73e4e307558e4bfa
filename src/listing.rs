use vstd::prelude::*;

use crate::datetime::{representable, datetime_text, format_datetime, local_from_timestamp, LocalDateTime};
use crate::icons::{icon_for, icon_of, IconMap};
use crate::models::{DirTemplateContext, FileContext};
use crate::path::{join_path, joined, view_opt};
use crate::sort::{sort_by_name, sorted_by_name, stable_rearrangement};
use crate::text::{decimal, decimal_string, has_prefix, starts_with};

verus! {

/// What could be read of a directory entry's metadata.
pub struct EntryMeta {
    pub is_directory: bool,
    pub is_file: bool,
    pub len: u64,
    pub modified: LocalDateTime,
}

/// A child of a listed directory: its name, and its metadata unless reading
/// that failed.
pub struct RawEntry {
    pub name: String,
    pub meta: Option<EntryMeta>,
}

/// The entries whose metadata could be read, in their order.
pub open spec fn readable(s: Seq<RawEntry>) -> Seq<RawEntry>
    decreases s.len(),
{
    if s.len() == 0 {
        Seq::empty()
    } else if s.last().meta is Some {
        readable(s.drop_last()).push(s.last())
    } else {
        readable(s.drop_last())
    }
}

/// The entries whose metadata could not be read, in their order.
pub open spec fn unreadable(s: Seq<RawEntry>) -> Seq<RawEntry>
    decreases s.len(),
{
    if s.len() == 0 {
        Seq::empty()
    } else if s.last().meta is Some {
        unreadable(s.drop_last())
    } else {
        unreadable(s.drop_last()).push(s.last())
    }
}

/// `p` with the leading `root` taken off, when it starts with it.
pub open spec fn relative(p: Seq<char>, root: Seq<char>) -> Seq<char> {
    if has_prefix(p, root) {
        p.subrange(root.len() as int, p.len() as int)
    } else {
        p
    }
}

/// `f` is the listing row for entry `e` of directory `dir`.
pub open spec fn describes(
    f: FileContext,
    dir: Seq<char>,
    root: Seq<char>,
    icons: Seq<(Seq<char>, Seq<char>)>,
    e: RawEntry,
) -> bool {
    let meta = e.meta->0;
    &&& e.meta is Some
    &&& f.name@ == e.name@
    &&& f.path@ == relative(joined(dir, e.name@), root)
    &&& view_opt(f.icon) == icon_for(icons, e.name@)
    &&& f.is_directory == meta.is_directory
    &&& f.is_file == meta.is_file
    &&& f.size@ == decimal(meta.len as nat)
    &&& f.last_modified@ == datetime_text(meta.modified)
}

/// `files` lists the readable entries of `entries`, each once, sorted by name,
/// with entries of equal names in their order of enumeration.
pub open spec fn lists(
    files: Seq<FileContext>,
    dir: Seq<char>,
    root: Seq<char>,
    icons: Seq<(Seq<char>, Seq<char>)>,
    entries: Seq<RawEntry>,
) -> bool {
    let src = readable(entries);
    &&& files.len() == src.len()
    &&& sorted_by_name(files)
    &&& exists|p: Seq<int>|
        {
            &&& p.len() == files.len()
            &&& forall|i: int|
                0 <= i < files.len() ==> 0 <= #[trigger] p[i] < src.len() && describes(
                    files[i],
                    dir,
                    root,
                    icons,
                    src[p[i]],
                )
            &&& forall|i: int, j: int| 0 <= i < j < files.len() ==> #[trigger] p[i] != #[trigger] p[j]
            &&& forall|i: int, j: int|
                0 <= i < j < files.len() && files[i].name@ == files[j].name@ ==> #[trigger] p[i]
                    < #[trigger] p[j]
        }
}

proof fn lemma_partition(s: Seq<RawEntry>)
    ensures
        readable(s).len() + unreadable(s).len() == s.len(),
    decreases s.len(),
{
    if s.len() > 0 {
        lemma_partition(s.drop_last());
    }
}

/// A listing of a directory whose children number N + M, M of them with
/// metadata that could not be read, has exactly N rows.
pub proof fn lemma_skip_policy(
    files: Seq<FileContext>,
    dir: Seq<char>,
    root: Seq<char>,
    icons: Seq<(Seq<char>, Seq<char>)>,
    entries: Seq<RawEntry>,
)
    requires
        lists(files, dir, root, icons, entries),
    ensures
        files.len() == entries.len() - unreadable(entries).len(),
{
    lemma_partition(entries);
}

/// Takes the leading `root` off `p`, when `p` starts with it.
pub fn relative_path(p: &str, root: &str) -> (r: String)
    ensures
        r@ == relative(p@, root@),
{
    if starts_with(p, root) {
        let n = p.unicode_len();
        let m = root.unicode_len();
        String::from_str(p.substring_char(m, n))
    } else {
        String::from_str(p)
    }
}

/// Metadata of an entry whose modification time is given in seconds and
/// nanoseconds since the Unix epoch; `None` when that instant has no local
/// date and time.
pub fn entry_meta(is_directory: bool, is_file: bool, len: u64, secs: i64, nanos: u32) -> (r: Option<
    EntryMeta,
>)
    ensures
        r is Some ==> r->0.is_directory == is_directory && r->0.is_file == is_file && r->0.len
            == len && r->0.modified.wf(),
        representable(secs, nanos) ==> r is Some,
{
    match local_from_timestamp(secs, nanos) {
        Some(modified) => Some(EntryMeta { is_directory, is_file, len, modified }),
        None => None,
    }
}

/// The listing row for a readable entry `name` of directory `dir`.
pub fn describe(dir: &str, root: &str, icons: &IconMap, name: &str, meta: &EntryMeta) -> (r:
    FileContext)
    ensures
        r.name@ == name@,
        r.path@ == relative(joined(dir@, name@), root@),
        view_opt(r.icon) == icon_for(icons@, name@),
        r.is_directory == meta.is_directory,
        r.is_file == meta.is_file,
        r.size@ == decimal(meta.len as nat),
        r.last_modified@ == datetime_text(meta.modified),
{
    let full = join_path(dir, name);
    FileContext {
        path: relative_path(full.as_str(), root),
        icon: icon_of(icons, name),
        is_directory: meta.is_directory,
        is_file: meta.is_file,
        last_modified: format_datetime(&meta.modified),
        size: decimal_string(meta.len),
        name: String::from_str(name),
    }
}

/// The rows for the readable entries, in enumeration order; the others are
/// skipped.
pub fn collect_entries(dir: &str, root: &str, icons: &IconMap, entries: &Vec<RawEntry>) -> (r: Vec<
    FileContext,
>)
    ensures
        r@.len() == readable(entries@).len(),
        forall|k: int|
            0 <= k < r@.len() ==> describes(#[trigger] r@[k], dir@, root@, icons@, readable(entries@)[k]),
{
    let mut out: Vec<FileContext> = Vec::new();
    let mut i: usize = 0;
    assert(entries@.subrange(0, 0) =~= Seq::<RawEntry>::empty());
    while i < entries.len()
        invariant
            i <= entries@.len(),
            out@.len() == readable(entries@.subrange(0, i as int)).len(),
            forall|k: int|
                0 <= k < out@.len() ==> describes(
                    #[trigger] out@[k],
                    dir@,
                    root@,
                    icons@,
                    readable(entries@.subrange(0, i as int))[k],
                ),
        decreases entries@.len() - i,
    {
        let ghost before = entries@.subrange(0, i as int);
        assert(entries@.subrange(0, i + 1).drop_last() =~= before);
        let e = &entries[i];
        match &e.meta {
            Some(meta) => {
                let f = describe(dir, root, icons, e.name.as_str(), meta);
                out.push(f);
            },
            None => {},
        }
        i = i + 1;
    }
    assert(entries@.subrange(0, entries@.len() as int) =~= entries@);
    out
}

/// Builds the listing of a directory from its enumerated children: one row per
/// child whose metadata could be read, sorted by name.
pub fn list_directory(dir: &str, root: &str, icons: &IconMap, entries: &Vec<RawEntry>) -> (r:
    DirTemplateContext)
    ensures
        lists(r.files@, dir@, root@, icons@, entries@),
{
    let rows = collect_entries(dir, root, icons, entries);
    let ghost built = rows@;
    let files = sort_by_name(rows);
    let ghost p = choose|p: Seq<int>| stable_rearrangement(p, built, files@);
    assert(files@.len() == readable(entries@).len());
    assert forall|i: int| 0 <= i < files@.len() implies 0 <= #[trigger] p[i] < readable(
        entries@,
    ).len() && describes(files@[i], dir@, root@, icons@, readable(entries@)[p[i]]) by {
        assert(files@[i] == built[p[i]]);
    }
    DirTemplateContext { files }
}

} // verus!
