use vstd::prelude::*;
use crate::text::{split_path, split_slashes, trim_trailing_slashes, strip_trailing_slashes, joined};

verus! {

/// A path segment that names an entry: not empty, not `.` and not `..`.
pub open spec fn is_entry_segment(seg: Seq<char>) -> bool {
    seg.len() > 0 && seg != seq!['.'] && seg != seq!['.', '.']
}

/// The last path component of `parts` when it names an entry, as
/// `Path::file_name` finds it: empty pieces and `.` are passed over, and a
/// path that ends in `..` or holds no entry has none.
pub open spec fn last_entry(parts: Seq<Seq<char>>) -> Option<Seq<char>>
    decreases parts.len(),
{
    if parts.len() == 0 {
        None
    } else {
        let p = parts.last();
        if p.len() == 0 || p == seq!['.'] {
            last_entry(parts.drop_last())
        } else if p == seq!['.', '.'] {
            None
        } else {
            Some(p)
        }
    }
}

/// The final component of `path`, if it names an entry.
pub open spec fn file_name_of(path: Seq<char>) -> Option<Seq<char>> {
    last_entry(split_path(path))
}

/// The entries that remain of `parts` after empty pieces and `.` are
/// dropped and each `..` removes the entry before it; `None` where a `..`
/// has no entry left to remove, that is where the path climbs above its
/// start.
pub open spec fn normalized(parts: Seq<Seq<char>>) -> Option<Seq<Seq<char>>>
    decreases parts.len(),
{
    if parts.len() == 0 {
        Some(Seq::empty())
    } else {
        match normalized(parts.drop_last()) {
            None => None,
            Some(kept) => {
                let p = parts.last();
                if p.len() == 0 || p == seq!['.'] {
                    Some(kept)
                } else if p == seq!['.', '.'] {
                    if kept.len() == 0 {
                        None
                    } else {
                        Some(kept.drop_last())
                    }
                } else {
                    Some(kept.push(p))
                }
            },
        }
    }
}

/// `base` followed by each of `entries`, each after a `/`.
pub open spec fn under(base: Seq<char>, entries: Seq<Seq<char>>) -> Seq<char>
    decreases entries.len(),
{
    if entries.len() == 0 {
        base
    } else {
        under(base, entries.drop_last()) + seq!['/'] + entries.last()
    }
}

/// Where a request for `request` lands inside the directory `base`, or
/// `None` where it would climb out of it.
pub open spec fn resolved_path(base: Seq<char>, request: Seq<char>) -> Option<Seq<char>> {
    match normalized(split_path(request)) {
        Some(entries) => Some(under(base, entries)),
        None => None,
    }
}

/// The address that a listing of `current` links `name` to.
pub open spec fn link_target(current: Seq<char>, name: Seq<char>) -> Seq<char> {
    if current.len() == 0 || current == seq!['/'] {
        seq!['/'] + name
    } else {
        trim_trailing_slashes(current) + seq!['/'] + name
    }
}

fn is_dot(s: &str) -> (r: bool)
    ensures
        r == (s@ == seq!['.']),
{
    let n = s.unicode_len();
    if n == 1 && s.get_char(0) == '.' {
        assert(s@ =~= seq!['.']);
        true
    } else {
        false
    }
}

fn is_dot_dot(s: &str) -> (r: bool)
    ensures
        r == (s@ == seq!['.', '.']),
{
    let n = s.unicode_len();
    if n == 2 && s.get_char(0) == '.' && s.get_char(1) == '.' {
        assert(s@ =~= seq!['.', '.']);
        true
    } else {
        false
    }
}

/// The final component of `path` if it names an entry: `"cat.jpg"` for
/// `"/tmp/cat.jpg"`, `"share"` for `"/srv/share/"`, none for `"/"` or
/// `"a/.."`.
pub fn file_name(path: &str) -> (r: Option<String>)
    ensures
        r.deep_view() == file_name_of(path@),
{
    let parts = split_slashes(path);
    let ghost views = parts@.map_values(|p: String| p@);
    let mut i = parts.len();
    assert(views.subrange(0, i as int) =~= views);
    while i > 0
        invariant
            i <= parts@.len(),
            views == parts@.map_values(|p: String| p@),
            views == split_path(path@),
            last_entry(views.subrange(0, i as int)) == last_entry(views),
        decreases i,
    {
        let p = &parts[i - 1];
        let ghost pre = views.subrange(0, i as int);
        assert(pre.last() == p@);
        assert(pre.drop_last() =~= views.subrange(0, i - 1));
        if is_dot_dot(p.as_str()) {
            return None;
        }
        if p.unicode_len() > 0 && !is_dot(p.as_str()) {
            return Some(p.clone());
        }
        i = i - 1;
    }
    None
}

proof fn lemma_normalized_stays_none(parts: Seq<Seq<char>>, i: int)
    requires
        0 <= i <= parts.len(),
        normalized(parts.subrange(0, i)) is None,
    ensures
        normalized(parts) is None,
    decreases parts.len() - i,
{
    if i < parts.len() {
        assert(parts.subrange(0, i + 1).drop_last() =~= parts.subrange(0, i));
        lemma_normalized_stays_none(parts, i + 1);
    } else {
        assert(parts.subrange(0, i) =~= parts);
    }
}

/// The file or directory that a request for `request` names inside the
/// directory `base`: `"/tmp/test/file.txt"` for `"/file.txt"` under
/// `"/tmp/test"`, `base` itself for `"/"`, and none where the request climbs
/// out of `base`, as `"/../../etc/passwd"` does.
pub fn resolve_within(base: &str, request: &str) -> (r: Option<String>)
    ensures
        r.deep_view() == resolved_path(base@, request@),
{
    let parts = split_slashes(request);
    let ghost views = parts@.map_values(|p: String| p@);
    let mut kept: Vec<String> = Vec::new();
    let mut i: usize = 0;
    assert(views.subrange(0, 0) =~= Seq::<Seq<char>>::empty());
    while i < parts.len()
        invariant
            i <= parts@.len(),
            views == parts@.map_values(|p: String| p@),
            views == split_path(request@),
            normalized(views.subrange(0, i as int)) == Some(kept@.map_values(|p: String| p@)),
        decreases parts@.len() - i,
    {
        let p = &parts[i];
        let ghost pre = views.subrange(0, i + 1);
        let ghost before = kept@.map_values(|p: String| p@);
        assert(pre.drop_last() =~= views.subrange(0, i as int));
        assert(pre.last() == p@);
        if p.unicode_len() == 0 || is_dot(p.as_str()) {
        } else if is_dot_dot(p.as_str()) {
            if kept.len() == 0 {
                proof {
                    lemma_normalized_stays_none(views, i + 1);
                }
                return None;
            }
            kept.pop();
            assert(kept@.map_values(|p: String| p@) =~= before.drop_last());
        } else {
            kept.push(p.clone());
            assert(kept@.map_values(|p: String| p@) =~= before.push(p@));
        }
        i = i + 1;
    }
    assert(views.subrange(0, i as int) =~= views);
    let ghost entries = kept@.map_values(|p: String| p@);
    let mut out = String::from_str(base);
    let mut j: usize = 0;
    assert(entries.subrange(0, 0) =~= Seq::<Seq<char>>::empty());
    while j < kept.len()
        invariant
            j <= kept@.len(),
            entries == kept@.map_values(|p: String| p@),
            out@ == under(base@, entries.subrange(0, j as int)),
        decreases kept@.len() - j,
    {
        proof {
            reveal_strlit("/");
        }
        out.append("/");
        out.append(kept[j].as_str());
        assert(entries.subrange(0, j + 1).drop_last() =~= entries.subrange(0, j as int));
        j = j + 1;
    }
    assert(entries.subrange(0, j as int) =~= entries);
    Some(out)
}

proof fn lemma_pieces_hold_no_slash(s: Seq<char>)
    ensures
        split_path(s).len() >= 1,
        forall|k: int| 0 <= k < split_path(s).len() ==> !(#[trigger] split_path(s)[k]).contains('/'),
    decreases s.len(),
{
    if s.len() > 0 {
        lemma_pieces_hold_no_slash(s.drop_last());
        let rest = split_path(s.drop_last());
        if s.last() != '/' {
            let old_last = rest[rest.len() - 1];
            let grown = old_last.push(s.last());
            assert(!old_last.contains('/'));
            assert forall|c: int| 0 <= c < grown.len() implies grown[c] != '/' by {
                if c < old_last.len() {
                    assert(grown[c] == old_last[c]);
                    if old_last[c] == '/' {
                        assert(old_last.contains('/'));
                    }
                }
            }
            assert(!grown.contains('/'));
            assert(split_path(s) == rest.update(rest.len() - 1, grown));
        }
    } else {
        assert(!Seq::<char>::empty().contains('/'));
    }
}

proof fn lemma_normalized_keeps_entries(parts: Seq<Seq<char>>)
    requires
        forall|k: int| 0 <= k < parts.len() ==> !(#[trigger] parts[k]).contains('/'),
    ensures
        normalized(parts) matches Some(kept) ==> forall|k: int|
            0 <= k < kept.len() ==> is_entry_segment(#[trigger] kept[k]) && !kept[k].contains('/'),
    decreases parts.len(),
{
    if parts.len() > 0 {
        let front = parts.drop_last();
        assert forall|k: int| 0 <= k < front.len() implies !(#[trigger] front[k]).contains('/') by {
            assert(front[k] == parts[k]);
        }
        lemma_normalized_keeps_entries(front);
        assert(parts[parts.len() - 1] == parts.last());
    }
}

proof fn lemma_under_starts_with_base(base: Seq<char>, entries: Seq<Seq<char>>)
    ensures
        under(base, entries).len() >= base.len(),
        under(base, entries).subrange(0, base.len() as int) == base,
    decreases entries.len(),
{
    if entries.len() > 0 {
        lemma_under_starts_with_base(base, entries.drop_last());
        let front = under(base, entries.drop_last());
        assert((front + seq!['/'] + entries.last()).subrange(0, base.len() as int)
            =~= front.subrange(0, base.len() as int));
    } else {
        assert(base.subrange(0, base.len() as int) =~= base);
    }
}

/// A request never resolves outside the shared directory: where it
/// resolves at all, the result is `base` followed by entry names, each one
/// non-empty, neither `.` nor `..`, and free of `/`.
pub proof fn lemma_resolution_stays_inside(base: Seq<char>, request: Seq<char>)
    ensures
        resolved_path(base, request) matches Some(p) ==> {
            &&& p.len() >= base.len()
            &&& p.subrange(0, base.len() as int) == base
        },
        normalized(split_path(request)) matches Some(entries) ==> {
            &&& resolved_path(base, request) == Some(under(base, entries))
            &&& forall|k: int|
                0 <= k < entries.len() ==> is_entry_segment(#[trigger] entries[k])
                    && !entries[k].contains('/')
        },
{
    lemma_pieces_hold_no_slash(request);
    lemma_normalized_keeps_entries(split_path(request));
    if let Some(entries) = normalized(split_path(request)) {
        lemma_under_starts_with_base(base, entries);
    }
}

/// The address that a listing of the directory requested as `current`
/// links the entry `name` to.
pub fn link_path(current: &str, name: &str) -> (r: String)
    ensures
        r@ == link_target(current@, name@),
{
    proof {
        reveal_strlit("/");
    }
    let n = current.unicode_len();
    if n == 0 || (n == 1 && current.get_char(0) == '/') {
        proof {
            if n == 1 {
                assert(current@ =~= seq!['/']);
            }
        }
        joined("/", name)
    } else {
        assert(current@ != seq!['/']);
        let mut s = strip_trailing_slashes(current);
        s.append("/");
        s.append(name);
        s
    }
}

} // verus!
