use vstd::prelude::*;
use vstd::seq_lib::{to_multiset_build, to_multiset_insert};
use crate::text::chars_of;

verus! {

/// One child of a shared directory, as its listing shows it.
#[derive(Clone, Debug, PartialEq, Eq)]
pub struct ListingEntry {
    /// The child's name.
    pub name: String,
    /// Its size in bytes.
    pub size: u64,
    /// Whether it is a file (else a directory).
    pub is_file: bool,
}

impl ListingEntry {
    /// An entry from its fields.
    pub fn new(name: String, size: u64, is_file: bool) -> (r: Self)
        ensures
            r.name@ == name@,
            r.size == size,
            r.is_file == is_file,
    {
        ListingEntry { name, size, is_file }
    }

    /// A copy of the entry.
    pub fn duplicate(&self) -> (r: Self)
        ensures
            r == *self,
    {
        ListingEntry { name: self.name.clone(), size: self.size, is_file: self.is_file }
    }
}

/// `a` comes no later than `b` in the order of `str::cmp`, which compares
/// code points one by one and puts a prefix first.
pub open spec fn name_le(a: Seq<char>, b: Seq<char>) -> bool
    decreases a.len(),
{
    if a.len() == 0 {
        true
    } else if b.len() == 0 {
        false
    } else if (a[0] as u32) != (b[0] as u32) {
        (a[0] as u32) < (b[0] as u32)
    } else {
        name_le(a.drop_first(), b.drop_first())
    }
}

/// The entries of `s` stand in the order of their names.
pub open spec fn sorted_by_name(s: Seq<ListingEntry>) -> bool {
    forall|i: int, j: int| 0 <= i < j < s.len() ==> name_le(#[trigger] s[i].name@, #[trigger] s[j].name@)
}

proof fn lemma_name_le_total(a: Seq<char>, b: Seq<char>)
    ensures
        name_le(a, b) || name_le(b, a),
    decreases a.len(),
{
    if a.len() > 0 && b.len() > 0 && (a[0] as u32) == (b[0] as u32) {
        lemma_name_le_total(a.drop_first(), b.drop_first());
    }
}

proof fn lemma_name_le_transitive(a: Seq<char>, b: Seq<char>, c: Seq<char>)
    requires
        name_le(a, b),
        name_le(b, c),
    ensures
        name_le(a, c),
    decreases a.len(),
{
    if a.len() > 0 && b.len() > 0 && c.len() > 0 && (a[0] as u32) == (b[0] as u32) && (b[0]
        as u32) == (c[0] as u32) {
        lemma_name_le_transitive(a.drop_first(), b.drop_first(), c.drop_first());
    }
}

/// Whether the name `a` comes no later than the name `b`.
pub fn name_precedes(a: &str, b: &str) -> (r: bool)
    ensures
        r == name_le(a@, b@),
{
    let x = chars_of(a);
    let y = chars_of(b);
    let mut k: usize = 0;
    assert(a@.subrange(0, a@.len() as int) =~= a@);
    assert(b@.subrange(0, b@.len() as int) =~= b@);
    loop
        invariant
            x@ == a@,
            y@ == b@,
            k <= x@.len(),
            k <= y@.len(),
            name_le(a@, b@) == name_le(
                a@.subrange(k as int, a@.len() as int),
                b@.subrange(k as int, b@.len() as int),
            ),
        decreases x@.len() - k,
    {
        let ghost ra = a@.subrange(k as int, a@.len() as int);
        let ghost rb = b@.subrange(k as int, b@.len() as int);
        if k == x.len() {
            return true;
        }
        if k == y.len() {
            return false;
        }
        assert(ra[0] == x@[k as int]);
        assert(rb[0] == y@[k as int]);
        if (x[k] as u32) != (y[k] as u32) {
            return (x[k] as u32) < (y[k] as u32);
        }
        assert(ra.drop_first() =~= a@.subrange(k + 1, a@.len() as int));
        assert(rb.drop_first() =~= b@.subrange(k + 1, b@.len() as int));
        k = k + 1;
    }
}

/// The entries in the order of their names, as a directory listing shows
/// them.
pub fn sort_listing(entries: &Vec<ListingEntry>) -> (r: Vec<ListingEntry>)
    ensures
        sorted_by_name(r@),
        r@.to_multiset() == entries@.to_multiset(),
{
    let mut out: Vec<ListingEntry> = Vec::new();
    let mut i: usize = 0;
    assert(entries@.subrange(0, 0) =~= Seq::<ListingEntry>::empty());
    while i < entries.len()
        invariant
            i <= entries@.len(),
            sorted_by_name(out@),
            out@.to_multiset() == entries@.subrange(0, i as int).to_multiset(),
        decreases entries@.len() - i,
    {
        let x = entries[i].duplicate();
        let mut p: usize = 0;
        while p < out.len() && name_precedes(out[p].name.as_str(), x.name.as_str())
            invariant
                p <= out@.len(),
                forall|k: int| 0 <= k < p ==> name_le(#[trigger] out@[k].name@, x.name@),
            decreases out@.len() - p,
        {
            p = p + 1;
        }
        proof {
            if p < out@.len() {
                assert(!name_le(out@[p as int].name@, x.name@));
                lemma_name_le_total(out@[p as int].name@, x.name@);
                assert forall|j: int| p <= j < out@.len() implies name_le(x.name@, #[trigger] out@[j].name@) by {
                    if j > p {
                        assert(name_le(out@[p as int].name@, out@[j].name@));
                        if name_le(out@[j].name@, x.name@) {
                            lemma_name_le_transitive(out@[p as int].name@, out@[j].name@, x.name@);
                        }
                    }
                    lemma_name_le_total(out@[j].name@, x.name@);
                }
            }
        }
        let ghost before = out@;
        out.insert(p, x);
        proof {
            let after = out@;
            assert(after == before.insert(p as int, x));
            assert forall|a: int, b: int| 0 <= a < b < after.len() implies name_le(
                #[trigger] after[a].name@,
                #[trigger] after[b].name@,
            ) by {
                if b < p {
                    assert(after[a] == before[a] && after[b] == before[b]);
                } else if b == p {
                    assert(after[a] == before[a]);
                } else if a < p {
                    assert(after[a] == before[a] && after[b] == before[b - 1]);
                    assert(name_le(before[a].name@, x.name@));
                    assert(name_le(x.name@, before[b - 1].name@));
                    lemma_name_le_transitive(before[a].name@, x.name@, before[b - 1].name@);
                } else if a == p {
                    assert(after[b] == before[b - 1]);
                } else {
                    assert(after[a] == before[a - 1] && after[b] == before[b - 1]);
                }
            }
            to_multiset_insert(before, p as int, x);
            assert(entries@.subrange(0, i + 1) =~= entries@.subrange(0, i as int).push(entries@[i as int]));
            to_multiset_build(entries@.subrange(0, i as int), entries@[i as int]);
        }
        i = i + 1;
    }
    assert(entries@.subrange(0, i as int) =~= entries@);
    out
}

} // verus!
