use vstd::prelude::*;

use crate::path::view_opt;

verus! {

/// The value bound to `key` in a sequence of bindings; the earliest binding wins.
pub open spec fn lookup(s: Seq<(Seq<char>, Seq<char>)>, key: Seq<char>) -> Option<Seq<char>>
    decreases s.len(),
{
    if s.len() == 0 {
        None
    } else if s[0].0 == key {
        Some(s[0].1)
    } else {
        lookup(s.drop_first(), key)
    }
}

/// Index of the last `'.'` in `s`, or -1 when there is none.
pub open spec fn last_dot(s: Seq<char>) -> int
    decreases s.len(),
{
    if s.len() == 0 {
        -1
    } else if s.last() == '.' {
        s.len() - 1
    } else {
        last_dot(s.drop_last())
    }
}

/// The text after the last `'.'` of a name; none when the name has no `'.'`.
pub open spec fn extension(name: Seq<char>) -> Option<Seq<char>> {
    let i = last_dot(name);
    if i < 0 {
        None
    } else {
        Some(name.subrange(i + 1, name.len() as int))
    }
}

/// The icon of a name: first by its extension, then by the whole name.
pub open spec fn icon_for(m: Seq<(Seq<char>, Seq<char>)>, name: Seq<char>) -> Option<Seq<char>> {
    let by_ext = match extension(name) {
        Some(e) => lookup(m, e),
        None => None,
    };
    if by_ext is Some {
        by_ext
    } else {
        lookup(m, name)
    }
}

/// A mapping from an extension or an exact file name to an icon identifier.
pub struct IconMap {
    entries: Vec<(String, String)>,
}

impl View for IconMap {
    type V = Seq<(Seq<char>, Seq<char>)>;

    closed spec fn view(&self) -> Seq<(Seq<char>, Seq<char>)> {
        self.entries@.map_values(|p: (String, String)| (p.0@, p.1@))
    }
}

/// Tests two strings for equality, character by character.
pub fn same_text(a: &str, b: &str) -> (r: bool)
    ensures
        r == (a@ == b@),
{
    let n = a.unicode_len();
    if n != b.unicode_len() {
        return false;
    }
    let mut i: usize = 0;
    while i < n
        invariant
            n == a@.len(),
            n == b@.len(),
            i <= n,
            forall|k: int| 0 <= k < i ==> a@[k] == b@[k],
        decreases n - i,
    {
        if a.get_char(i) != b.get_char(i) {
            return false;
        }
        i = i + 1;
    }
    assert(a@ =~= b@);
    true
}

impl IconMap {
    pub fn new() -> (r: Self)
        ensures
            r@.len() == 0,
    {
        IconMap { entries: Vec::new() }
    }

    /// Binds `key` to `icon`, replacing any earlier binding of `key`.
    pub fn insert(&mut self, key: String, icon: String)
        ensures
            forall|k: Seq<char>|
                lookup(final(self)@, k) == if k == key@ {
                    Some(icon@)
                } else {
                    lookup(old(self)@, k)
                },
    {
        let ghost before = self@;
        self.entries.insert(0, (key, icon));
        assert(self@.drop_first() =~= before);
    }

    /// The icon bound to `key`, if any.
    pub fn get(&self, key: &str) -> (r: Option<String>)
        ensures
            view_opt(r) == lookup(self@, key@),
    {
        let n = self.entries.len();
        let mut i: usize = 0;
        assert(self@.subrange(0, n as int) =~= self@);
        while i < n
            invariant
                n == self.entries@.len(),
                n == self@.len(),
                i <= n,
                lookup(self@, key@) == lookup(self@.subrange(i as int, n as int), key@),
            decreases n - i,
        {
            assert(self@.subrange(i as int, n as int).drop_first() =~= self@.subrange(
                i + 1,
                n as int,
            ));
            if same_text(self.entries[i].0.as_str(), key) {
                return Some(self.entries[i].1.clone());
            }
            i = i + 1;
        }
        None
    }
}

/// The extension of a name: the text after its last `'.'`.
pub fn extension_of(name: &str) -> (r: Option<String>)
    ensures
        view_opt(r) == extension(name@),
{
    let n = name.unicode_len();
    let mut i: usize = n;
    assert(name@.subrange(0, n as int) =~= name@);
    while i > 0
        invariant
            n == name@.len(),
            i <= n,
            last_dot(name@) == last_dot(name@.subrange(0, i as int)),
        decreases i,
    {
        assert(name@.subrange(0, i as int).drop_last() =~= name@.subrange(0, i - 1));
        if name.get_char(i - 1) == '.' {
            return Some(String::from_str(name.substring_char(i, n)));
        }
        i = i - 1;
    }
    None
}

/// The icon of a file name: by its extension first, then by the whole name.
pub fn icon_of(icons: &IconMap, name: &str) -> (r: Option<String>)
    ensures
        view_opt(r) == icon_for(icons@, name@),
{
    match extension_of(name) {
        Some(e) => {
            let by_ext = icons.get(e.as_str());
            if by_ext.is_some() {
                return by_ext;
            }
        },
        None => {},
    }
    icons.get(name)
}

} // verus!
