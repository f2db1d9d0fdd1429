//! The order of a directory listing: directories first, then by file name.
use vstd::prelude::*;

use crate::path::{file_name, std_file_name};
use crate::ui::text::chars_of;

verus! {

broadcast use vstd::seq_lib::group_to_multiset_ensures;

/// `a` comes strictly before `b` in code point order (which is also the
/// order of their UTF-8 bytes).
pub open spec fn name_lt(a: Seq<char>, b: Seq<char>) -> bool
    decreases a.len(),
{
    if a.len() == 0 {
        b.len() > 0
    } else if b.len() == 0 {
        false
    } else if (a[0] as u32) < (b[0] as u32) {
        true
    } else if (a[0] as u32) > (b[0] as u32) {
        false
    } else {
        name_lt(a.drop_first(), b.drop_first())
    }
}

/// Order of optional file names: no name before any name.
pub open spec fn opt_name_le(a: Option<Seq<char>>, b: Option<Seq<char>>) -> bool {
    match (a, b) {
        (None, _) => true,
        (Some(_), None) => false,
        (Some(x), Some(y)) => !name_lt(y, x),
    }
}

/// A listing key: whether the entry is a directory, and its file name.
pub type ListKey = (bool, Option<Seq<char>>);

/// Directories before other entries; within each group by file name.
pub open spec fn key_le(a: ListKey, b: ListKey) -> bool {
    if a.0 && !b.0 {
        true
    } else if !a.0 && b.0 {
        false
    } else {
        opt_name_le(a.1, b.1)
    }
}

/// The key of an entry with a path and a directory flag.
pub open spec fn path_key(is_dir: bool, path: Seq<char>) -> ListKey {
    (is_dir, std_file_name(path))
}

pub proof fn lemma_name_lt_total(a: Seq<char>, b: Seq<char>)
    ensures
        name_lt(a, b) || name_lt(b, a) || a == b,
        !(name_lt(a, b) && name_lt(b, a)),
    decreases a.len(),
{
    if a.len() > 0 && b.len() > 0 && (a[0] as u32) == (b[0] as u32) {
        lemma_name_lt_total(a.drop_first(), b.drop_first());
        if a.drop_first() == b.drop_first() {
            vstd::utf8::char_u32_cast(a[0], a[0] as u32);
            vstd::utf8::char_u32_cast(b[0], b[0] as u32);
            assert(a[0] == b[0]);
            assert(a =~= seq![a[0]] + a.drop_first());
            assert(b =~= seq![b[0]] + b.drop_first());
        }
    } else if a.len() == 0 && b.len() == 0 {
        assert(a =~= b);
    }
}

pub proof fn lemma_name_lt_trans(a: Seq<char>, b: Seq<char>, c: Seq<char>)
    requires
        name_lt(a, b),
        name_lt(b, c),
    ensures
        name_lt(a, c),
    decreases a.len(),
{
    if a.len() > 0 && b.len() > 0 && c.len() > 0 && (a[0] as u32) == (b[0] as u32) && (b[0] as u32)
        == (c[0] as u32) {
        lemma_name_lt_trans(a.drop_first(), b.drop_first(), c.drop_first());
    }
}

pub proof fn lemma_key_le_total(a: ListKey, b: ListKey)
    ensures
        key_le(a, b) || key_le(b, a),
{
    match (a.1, b.1) {
        (Some(x), Some(y)) => lemma_name_lt_total(x, y),
        _ => {},
    }
}

pub proof fn lemma_key_le_trans(a: ListKey, b: ListKey, c: ListKey)
    requires
        key_le(a, b),
        key_le(b, c),
    ensures
        key_le(a, c),
{
    match (a.1, b.1, c.1) {
        (Some(x), Some(y), Some(z)) => {
            lemma_name_lt_total(x, y);
            lemma_name_lt_total(y, z);
            lemma_name_lt_total(x, z);
            if name_lt(z, x) {
                if name_lt(y, x) {
                } else if x == y {
                } else {
                    lemma_name_lt_trans(z, x, y);
                }
            }
        },
        _ => {},
    }
}

/// An entry of a listing: something with a path and a directory flag.
pub trait Listed {
    /// The entry's listing key.
    spec fn list_key(&self) -> ListKey;

    /// Whether the entry is a directory, and its file name.
    fn key(&self) -> (k: (bool, Option<String>))
        ensures
            k.0 == self.list_key().0,
            match k.1 {
                Some(s) => self.list_key().1 == Some(s@),
                None => self.list_key().1 is None,
            },
    ;
}

/// The entries are in listing order.
pub open spec fn listing_sorted<T: Listed>(s: Seq<T>) -> bool {
    forall|a: int, b: int|
        0 <= a < b < s.len() ==> key_le(#[trigger] s[a].list_key(), #[trigger] s[b].list_key())
}

/// `x` inserted into `s` after every entry whose key is not greater than
/// its own.
pub open spec fn inserted<T: Listed>(s: Seq<T>, x: T) -> Seq<T>
    decreases s.len(),
{
    if s.len() == 0 {
        seq![x]
    } else if key_le(s.last().list_key(), x.list_key()) {
        s.push(x)
    } else {
        inserted(s.drop_last(), x).push(s.last())
    }
}

/// The entries in listing order, as a stable sort by key gives them:
/// entries with equal keys keep the order they had.
pub open spec fn listing_order<T: Listed>(s: Seq<T>) -> Seq<T>
    decreases s.len(),
{
    if s.len() == 0 {
        s
    } else {
        inserted(listing_order(s.drop_last()), s.last())
    }
}

/// Inserting at the first entry whose key is greater is `inserted`.
proof fn lemma_insert_is_inserted<T: Listed>(s: Seq<T>, p: int, x: T)
    requires
        0 <= p <= s.len(),
        listing_sorted(s),
        forall|k: int| 0 <= k < p ==> key_le(#[trigger] s[k].list_key(), x.list_key()),
        p < s.len() ==> !key_le(s[p].list_key(), x.list_key()),
    ensures
        s.insert(p, x) == inserted(s, x),
    decreases s.len(),
{
    if s.len() == 0 {
        assert(s.insert(p, x) =~= seq![x]);
    } else if p == s.len() {
        assert(key_le(s[s.len() - 1].list_key(), x.list_key()));
        assert(s.insert(p, x) =~= s.push(x));
    } else {
        let l = s.len() - 1;
        if key_le(s.last().list_key(), x.list_key()) {
            if p < l {
                assert(key_le(s[p].list_key(), s[l].list_key()));
            }
            lemma_key_le_trans(s[p].list_key(), s.last().list_key(), x.list_key());
        }
        let d = s.drop_last();
        assert forall|a: int, b: int| 0 <= a < b < d.len() implies key_le(
            #[trigger] d[a].list_key(),
            #[trigger] d[b].list_key(),
        ) by {
            assert(d[a] == s[a] && d[b] == s[b]);
        }
        assert forall|k: int| 0 <= k < p implies key_le(#[trigger] d[k].list_key(), x.list_key()) by {
            assert(d[k] == s[k]);
        }
        if p < d.len() {
            assert(d[p] == s[p]);
        }
        lemma_insert_is_inserted(d, p, x);
        assert(s.insert(p, x) =~= d.insert(p, x).push(s.last()));
    }
}

/// `a` before `b` in code point order.
fn name_less(a: &String, b: &String) -> (r: bool)
    ensures
        r == name_lt(a@, b@),
{
    let x = chars_of(a.as_str());
    let y = chars_of(b.as_str());
    let mut i: usize = 0;
    assert(x@.skip(0) =~= x@);
    assert(y@.skip(0) =~= y@);
    while i < x.len() && i < y.len() && x[i] as u32 == y[i] as u32
        invariant
            i <= x@.len(),
            i <= y@.len(),
            name_lt(x@, y@) == name_lt(x@.skip(i as int), y@.skip(i as int)),
        decreases x.len() - i,
    {
        assert(x@.skip(i as int).drop_first() =~= x@.skip(i + 1));
        assert(y@.skip(i as int).drop_first() =~= y@.skip(i + 1));
        i = i + 1;
    }
    if i == x.len() {
        i < y.len()
    } else if i == y.len() {
        false
    } else {
        (x[i] as u32) < (y[i] as u32)
    }
}

/// `key_le` on executable keys.
fn key_less_eq(a: &(bool, Option<String>), b: &(bool, Option<String>)) -> (r: bool)
    ensures
        r == key_le(
            (a.0, match a.1 { Some(s) => Some(s@), None => None }),
            (b.0, match b.1 { Some(s) => Some(s@), None => None }),
        ),
{
    if a.0 && !b.0 {
        true
    } else if !a.0 && b.0 {
        false
    } else {
        match (&a.1, &b.1) {
            (None, _) => true,
            (Some(_), None) => false,
            (Some(x), Some(y)) => !name_less(y, x),
        }
    }
}

/// Sorts entries into listing order: directories first, then by file
/// name; entries with equal keys keep their order, and the entries
/// themselves are unchanged.
pub fn sort_listing<T: Listed>(v: &mut Vec<T>)
    ensures
        final(v)@ == listing_order(old(v)@),
        listing_sorted(final(v)@),
        final(v)@.to_multiset() == old(v)@.to_multiset(),
        final(v)@.len() == old(v)@.len(),
{
    let n = v.len();
    let mut i: usize = 0;
    while i < n
        invariant
            i <= n,
            n == v@.len(),
            v@.to_multiset() == old(v)@.to_multiset(),
            listing_sorted(v@.take(i as int)),
            v@.take(i as int) == listing_order(old(v)@.take(i as int)),
            v@.skip(i as int) == old(v)@.skip(i as int),
            old(v)@.len() == n,
        decreases n - i,
    {
        let ghost before = v@;
        let x = v.remove(i);
        let kx = x.key();
        // Find the first position whose key is strictly greater than x's.
        let mut p: usize = 0;
        let mut going = true;
        while going && p < i
            invariant
                p <= i,
                i < n,
                v@.len() == n - 1,
                v@ == before.remove(i as int),
                !going ==> p < i && !key_le(v@[p as int].list_key(), x.list_key()),
                kx.0 == x.list_key().0,
                match kx.1 { Some(s) => x.list_key().1 == Some(s@), None => x.list_key().1 is None },
                forall|k: int| 0 <= k < p ==> key_le(#[trigger] v@[k].list_key(), x.list_key()),
            decreases i - p + if going { 1int } else { 0int },
        {
            let kp = v[p].key();
            if !key_less_eq(&kp, &kx) {
                going = false;
            } else {
                p = p + 1;
            }
        }
        let ghost prefix = v@.take(i as int);
        proof {
            assert(prefix =~= before.take(i as int));
        }
        v.insert(p, x);
        proof {
            assert(v@.to_multiset() == old(v)@.to_multiset()) by {
                assert(before.remove(i as int).insert(p as int, x).to_multiset()
                    == before.remove(i as int).to_multiset().insert(x));
                assert(before.remove(i as int).to_multiset() == before.to_multiset().remove(
                    before[i as int],
                ));
                assert(before.to_multiset().contains(before[i as int]));
                assert(before.to_multiset().remove(before[i as int]).insert(before[i as int])
                    =~= before.to_multiset());
            }
            lemma_insert_sorted(prefix, p as int, x);
            assert(v@.take(i + 1) =~= prefix.insert(p as int, x));
            lemma_insert_is_inserted(prefix, p as int, x);
            assert(x == old(v)@[i as int]) by {
                assert(before.skip(i as int)[0] == before[i as int]);
            }
            let ot = old(v)@.take(i + 1);
            assert(ot.drop_last() =~= old(v)@.take(i as int));
            assert(v@.skip(i + 1) =~= before.skip(i + 1));
            assert(before.skip(i + 1) =~= before.skip(i as int).skip(1));
        }
        i = i + 1;
    }
    assert(v@.take(n as int) =~= v@);
    assert(old(v)@.take(n as int) =~= old(v)@);
}

/// Inserting an entry after every entry whose key is not greater keeps a
/// sorted listing sorted.
proof fn lemma_insert_sorted<T: Listed>(s: Seq<T>, p: int, x: T)
    requires
        0 <= p <= s.len(),
        listing_sorted(s),
        forall|k: int| 0 <= k < p ==> key_le(#[trigger] s[k].list_key(), x.list_key()),
        p < s.len() ==> !key_le(s[p].list_key(), x.list_key()),
    ensures
        listing_sorted(s.insert(p, x)),
{
    let t = s.insert(p, x);
    assert forall|a: int, b: int| 0 <= a < b < t.len() implies key_le(
        #[trigger] t[a].list_key(),
        #[trigger] t[b].list_key(),
    ) by {
        if b < p {
            assert(t[a] == s[a] && t[b] == s[b]);
        } else if b == p {
            assert(t[a] == s[a] && t[b] == x);
        } else if a < p {
            assert(t[a] == s[a] && t[b] == s[b - 1]);
            assert(key_le(s[a].list_key(), x.list_key()));
            lemma_key_le_total(s[p].list_key(), x.list_key());
            if p < b - 1 {
                assert(key_le(s[p].list_key(), s[b - 1].list_key()));
                lemma_key_le_trans(x.list_key(), s[p].list_key(), s[b - 1].list_key());
            }
            lemma_key_le_trans(s[a].list_key(), x.list_key(), s[b - 1].list_key());
        } else if a == p {
            assert(t[a] == x && t[b] == s[b - 1]);
            lemma_key_le_total(s[p].list_key(), x.list_key());
            if p < b - 1 {
                assert(key_le(s[p].list_key(), s[b - 1].list_key()));
                lemma_key_le_trans(x.list_key(), s[p].list_key(), s[b - 1].list_key());
            }
        } else {
            assert(t[a] == s[a - 1] && t[b] == s[b - 1]);
        }
    }
}

} // verus!
