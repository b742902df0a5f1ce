//! Deterministic ordering of rows. The engine resolves every sort token to
//! one concrete ordering clause and applies it as a stable sort, so that
//! repeated listings slice their pages along the same row boundaries.

use vstd::prelude::*;
use vstd::assert_seqs_equal;

verus! {

/// Direction of an ordering clause.
#[derive(Clone, Copy, Debug, PartialEq, Eq, Structural)]
pub enum SortDir {
    Asc,
    Desc,
}

/// A row type that an entity-specific ordering clause `O` can order.
pub trait SortableBy<O>: Sized {
    /// Whether `a` may stand at or before `b` under the ordering `o`.
    spec fn le(o: O, a: Self, b: Self) -> bool;

    /// Executable form of `le`.
    fn le_exec(o: &O, a: &Self, b: &Self) -> (r: bool)
        ensures
            r == Self::le(*o, *a, *b),
    ;
}

/// Where `x` lands when inserted into `s`: after every leading element that
/// may stand before it, before the first that may not. Rows with equal keys
/// keep their arrival order, which makes the sort stable.
pub open spec fn spec_insert_sorted<O, T: SortableBy<O>>(o: O, x: T, s: Seq<T>) -> Seq<T>
    decreases s.len(),
{
    if s.len() == 0 {
        seq![x]
    } else if T::le(o, s[0], x) {
        seq![s[0]] + spec_insert_sorted(o, x, s.drop_first())
    } else {
        seq![x] + s
    }
}

/// The rows of `s` rearranged by repeated ordered insertion, taking the rows
/// in their given order: a stable sort by the ordering `o`.
pub open spec fn spec_sort_by<O, T: SortableBy<O>>(o: O, s: Seq<T>) -> Seq<T>
    decreases s.len(),
{
    if s.len() == 0 {
        Seq::empty()
    } else {
        spec_insert_sorted(o, s.last(), spec_sort_by(o, s.drop_last()))
    }
}

/// Ordered insertion adds exactly one row.
pub proof fn lemma_insert_sorted_len<O, T: SortableBy<O>>(o: O, x: T, s: Seq<T>)
    ensures
        spec_insert_sorted(o, x, s).len() == s.len() + 1,
    decreases s.len(),
{
    if s.len() > 0 && T::le(o, s[0], x) {
        lemma_insert_sorted_len(o, x, s.drop_first());
    }
}

/// Sorting neither adds nor drops rows.
pub proof fn lemma_sort_by_len<O, T: SortableBy<O>>(o: O, s: Seq<T>)
    ensures
        spec_sort_by(o, s).len() == s.len(),
    decreases s.len(),
{
    if s.len() > 0 {
        lemma_sort_by_len(o, s.drop_last());
        lemma_insert_sorted_len(o, s.last(), spec_sort_by(o, s.drop_last()));
    }
}

/// Ordered insertion keeps the collection of rows, merely rearranged.
pub proof fn lemma_insert_sorted_multiset<O, T: SortableBy<O>>(o: O, x: T, s: Seq<T>)
    ensures
        spec_insert_sorted(o, x, s).to_multiset() == s.to_multiset().insert(x),
    decreases s.len(),
{
    broadcast use vstd::seq_lib::group_to_multiset_ensures;

    if s.len() == 0 {
        assert(spec_insert_sorted(o, x, s) =~= Seq::empty().push(x));
        assert(Seq::<T>::empty().push(x).to_multiset() =~= Seq::<T>::empty().to_multiset().insert(
            x,
        ));
        assert(s.to_multiset() =~= Seq::<T>::empty().to_multiset());
    } else if T::le(o, s[0], x) {
        lemma_insert_sorted_multiset(o, x, s.drop_first());
        let rest = spec_insert_sorted(o, x, s.drop_first());
        assert(spec_insert_sorted(o, x, s) =~= rest.insert(0, s[0]));
        vstd::seq_lib::to_multiset_insert(rest, 0, s[0]);
        vstd::seq_lib::to_multiset_insert(s.drop_first(), 0, s[0]);
        assert(s =~= s.drop_first().insert(0, s[0]));
        assert(spec_insert_sorted(o, x, s).to_multiset() =~= s.to_multiset().insert(x));
    } else {
        assert(spec_insert_sorted(o, x, s) =~= s.insert(0, x));
        vstd::seq_lib::to_multiset_insert(s, 0, x);
    }
}

/// A sorted listing holds exactly the matching rows, merely rearranged.
pub proof fn lemma_sort_by_multiset<O, T: SortableBy<O>>(o: O, s: Seq<T>)
    ensures
        spec_sort_by(o, s).to_multiset() == s.to_multiset(),
    decreases s.len(),
{
    broadcast use vstd::seq_lib::group_to_multiset_ensures;

    if s.len() > 0 {
        lemma_sort_by_multiset(o, s.drop_last());
        lemma_insert_sorted_multiset(o, s.last(), spec_sort_by(o, s.drop_last()));
        assert(s =~= s.drop_last().push(s.last()));
    }
}

/// Position-based form of ordered insertion: inserting `x` at the first
/// index whose row may not stand before it gives `spec_insert_sorted`.
proof fn lemma_insert_sorted_at<O, T: SortableBy<O>>(o: O, x: T, s: Seq<T>, j: int)
    requires
        0 <= j <= s.len(),
        forall|i: int| 0 <= i < j ==> T::le(o, #[trigger] s[i], x),
        j < s.len() ==> !T::le(o, s[j], x),
    ensures
        spec_insert_sorted(o, x, s) == s.subrange(0, j) + seq![x] + s.subrange(
            j,
            s.len() as int,
        ),
    decreases j,
{
    if j == 0 {
        if s.len() == 0 {
            assert_seqs_equal!(
                spec_insert_sorted(o, x, s)
                    == s.subrange(0, 0) + seq![x] + s.subrange(0, s.len() as int)
            );
        } else {
            assert_seqs_equal!(
                seq![x] + s == s.subrange(0, 0) + seq![x] + s.subrange(0, s.len() as int)
            );
        }
    } else {
        let rest = s.drop_first();
        assert(T::le(o, s[0], x));
        assert forall|i: int| 0 <= i < j - 1 implies T::le(o, #[trigger] rest[i], x) by {
            assert(rest[i] == s[i + 1]);
        }
        assert(j - 1 < rest.len() ==> !T::le(o, rest[j - 1], x));
        lemma_insert_sorted_at(o, x, rest, j - 1);
        assert_seqs_equal!(
            seq![s[0]] + (rest.subrange(0, j - 1) + seq![x]
                + rest.subrange(j - 1, rest.len() as int))
                == s.subrange(0, j) + seq![x] + s.subrange(j, s.len() as int)
        );
    }
}

/// Insert `x` into the already-sorted `v` at its stable position.
pub fn insert_sorted<O, T: SortableBy<O>>(o: &O, x: T, v: &mut Vec<T>)
    ensures
        final(v)@ == spec_insert_sorted(*o, x, old(v)@),
{
    let mut j: usize = 0;
    while j < v.len() && T::le_exec(o, &v[j], &x)
        invariant
            j <= v@.len(),
            v@ == old(v)@,
            forall|i: int| 0 <= i < j ==> T::le(*o, #[trigger] v@[i], x),
        decreases v@.len() - j,
    {
        j += 1;
    }
    proof {
        lemma_insert_sorted_at(*o, x, v@, j as int);
    }
    v.insert(j, x);
    proof {
        assert_seqs_equal!(
            v@ == old(v)@.subrange(0, j as int) + seq![x]
                + old(v)@.subrange(j as int, old(v)@.len() as int)
        );
    }
}

/// Whether `s` stands in order under `o`: every row may stand at or
/// before each later row.
pub open spec fn spec_sorted_by<O, T: SortableBy<O>>(o: O, s: Seq<T>) -> bool {
    forall|i: int, j: int| 0 <= i < j < s.len() ==> T::le(o, #[trigger] s[i], #[trigger] s[j])
}

/// What an ordering clause must do for a sort to order rows: order every
/// pair of rows one way or the other, and do so transitively.
pub open spec fn spec_total_order<O, T: SortableBy<O>>(o: O) -> bool {
    &&& forall|a: T, b: T| #[trigger] T::le(o, a, b) || #[trigger] T::le(o, b, a)
    &&& forall|a: T, b: T, c: T|
        #[trigger] T::le(o, a, b) && #[trigger] T::le(o, b, c) ==> T::le(o, a, c)
}

/// Every row of an ordered insertion is the inserted row or one of the
/// rows it was inserted among.
proof fn lemma_insert_sorted_elements<O, T: SortableBy<O>>(o: O, x: T, s: Seq<T>, k: int)
    requires
        0 <= k < spec_insert_sorted(o, x, s).len(),
    ensures
        spec_insert_sorted(o, x, s)[k] == x || s.contains(spec_insert_sorted(o, x, s)[k]),
    decreases s.len(),
{
    let out = spec_insert_sorted(o, x, s);
    if s.len() == 0 {
    } else if T::le(o, s[0], x) {
        if k == 0 {
            assert(out[0] == s[0]);
            assert(s.contains(s[0]));
        } else {
            let rest = s.drop_first();
            lemma_insert_sorted_elements(o, x, rest, k - 1);
            let e = spec_insert_sorted(o, x, rest)[k - 1];
            assert(out[k] == e);
            if e != x {
                let idx = choose|idx: int| 0 <= idx < rest.len() && rest[idx] == e;
                assert(s[idx + 1] == e);
                assert(s.contains(e));
            }
        }
    } else {
        if k > 0 {
            assert(out[k] == s[k - 1]);
            assert(s.contains(s[k - 1]));
        }
    }
}

/// Ordered insertion into an ordered sequence stays ordered, provided the
/// clause orders every pair of rows.
pub proof fn lemma_insert_sorted_ordered<O, T: SortableBy<O>>(o: O, x: T, s: Seq<T>)
    requires
        spec_total_order::<O, T>(o),
        spec_sorted_by(o, s),
    ensures
        spec_sorted_by(o, spec_insert_sorted(o, x, s)),
    decreases s.len(),
{
    let out = spec_insert_sorted(o, x, s);
    if s.len() == 0 {
    } else if T::le(o, s[0], x) {
        let rest = s.drop_first();
        assert forall|i: int, j: int| 0 <= i < j < rest.len() implies T::le(
            o,
            #[trigger] rest[i],
            #[trigger] rest[j],
        ) by {
            assert(rest[i] == s[i + 1] && rest[j] == s[j + 1]);
        }
        lemma_insert_sorted_ordered(o, x, rest);
        let ins = spec_insert_sorted(o, x, rest);
        assert forall|i: int, j: int| 0 <= i < j < out.len() implies T::le(
            o,
            #[trigger] out[i],
            #[trigger] out[j],
        ) by {
            if i == 0 {
                let e = out[j];
                assert(e == ins[j - 1]);
                lemma_insert_sorted_elements(o, x, rest, j - 1);
                if e == x {
                    assert(T::le(o, s[0], x));
                } else {
                    let idx = choose|idx: int| 0 <= idx < rest.len() && rest[idx] == e;
                    assert(s[idx + 1] == e);
                    assert(T::le(o, s[0], s[idx + 1]));
                }
            } else {
                assert(out[i] == ins[i - 1] && out[j] == ins[j - 1]);
            }
        }
    } else {
        assert(T::le(o, x, s[0]));
        assert forall|i: int, j: int| 0 <= i < j < out.len() implies T::le(
            o,
            #[trigger] out[i],
            #[trigger] out[j],
        ) by {
            if i == 0 {
                assert(out[j] == s[j - 1]);
                if j - 1 > 0 {
                    assert(T::le(o, s[0], s[j - 1]));
                }
            } else {
                assert(out[i] == s[i - 1] && out[j] == s[j - 1]);
            }
        }
    }
}

/// A stable sort by a clause that orders every pair of rows leaves the
/// rows in order.
pub proof fn lemma_sort_by_ordered<O, T: SortableBy<O>>(o: O, s: Seq<T>)
    requires
        spec_total_order::<O, T>(o),
    ensures
        spec_sorted_by(o, spec_sort_by(o, s)),
    decreases s.len(),
{
    if s.len() > 0 {
        lemma_sort_by_ordered(o, s.drop_last());
        lemma_insert_sorted_ordered(o, s.last(), spec_sort_by(o, s.drop_last()));
    }
}

/// Lexicographic order on character sequences, by code point; a string
/// stands at or before every string it is a prefix of.
pub open spec fn spec_str_le(a: Seq<char>, b: Seq<char>) -> bool
    decreases a.len(),
{
    if a.len() == 0 {
        true
    } else if b.len() == 0 {
        false
    } else if a[0] == b[0] {
        spec_str_le(a.drop_first(), b.drop_first())
    } else {
        (a[0] as u32) < (b[0] as u32)
    }
}

/// Any two strings are lexicographically comparable one way or the other.
pub proof fn lemma_str_le_total(a: Seq<char>, b: Seq<char>)
    ensures
        spec_str_le(a, b) || spec_str_le(b, a),
    decreases a.len(),
{
    if a.len() > 0 && b.len() > 0 {
        if a[0] == b[0] {
            lemma_str_le_total(a.drop_first(), b.drop_first());
        } else {
            // distinct characters have distinct code points
            vstd::utf8::char_u32_cast(a[0], a[0] as u32);
            vstd::utf8::char_u32_cast(b[0], b[0] as u32);
            assert(a[0] as u32 != b[0] as u32);
        }
    }
}

/// Lexicographic order is transitive.
pub proof fn lemma_str_le_trans(a: Seq<char>, b: Seq<char>, c: Seq<char>)
    requires
        spec_str_le(a, b),
        spec_str_le(b, c),
    ensures
        spec_str_le(a, c),
    decreases a.len(),
{
    if a.len() > 0 && b.len() > 0 && c.len() > 0 && a[0] == b[0] && b[0] == c[0] {
        lemma_str_le_trans(a.drop_first(), b.drop_first(), c.drop_first());
    }
}

/// Whether `a` stands at or before `b` in lexicographic order.
pub fn str_le(a: &str, b: &str) -> (r: bool)
    ensures
        r == spec_str_le(a@, b@),
{
    let na = a.unicode_len();
    let nb = b.unicode_len();
    let mut i: usize = 0;
    proof {
        assert_seqs_equal!(a@.skip(0) == a@);
        assert_seqs_equal!(b@.skip(0) == b@);
    }
    while i < na && i < nb
        invariant
            i <= na,
            i <= nb,
            na == a@.len(),
            nb == b@.len(),
            spec_str_le(a@, b@) == spec_str_le(a@.skip(i as int), b@.skip(i as int)),
        decreases na - i,
    {
        let ca = a.get_char(i);
        let cb = b.get_char(i);
        assert(a@.skip(i as int)[0] == a@[i as int]);
        assert(b@.skip(i as int)[0] == b@[i as int]);
        if ca != cb {
            return (ca as u32) < (cb as u32);
        }
        proof {
            assert_seqs_equal!(a@.skip(i as int).drop_first() == a@.skip(i + 1));
            assert_seqs_equal!(b@.skip(i as int).drop_first() == b@.skip(i + 1));
        }
        i += 1;
    }
    proof {
        if i >= na {
            assert(a@.skip(i as int).len() == 0);
        } else {
            assert(b@.skip(i as int).len() == 0);
            assert(a@.skip(i as int).len() > 0);
        }
    }
    na <= nb
}

/// Stable sort of `rows` by the ordering `o`.
pub fn sort_rows<O, T: SortableBy<O>>(o: &O, rows: Vec<T>) -> (out: Vec<T>)
    ensures
        out@ == spec_sort_by(*o, rows@),
{
    let ghost rows0 = rows@;
    let mut rows = rows;
    let mut out: Vec<T> = Vec::new();
    let ghost mut k: int = 0;
    while rows.len() > 0
        invariant
            0 <= k <= rows0.len(),
            rows@ == rows0.subrange(k, rows0.len() as int),
            out@ == spec_sort_by(*o, rows0.subrange(0, k)),
        decreases rows@.len(),
    {
        let x = rows.remove(0);
        assert(x == rows0[k]);
        insert_sorted(o, x, &mut out);
        proof {
            assert_seqs_equal!(rows@ == rows0.subrange(k + 1, rows0.len() as int));
            let upto = rows0.subrange(0, k + 1);
            assert(upto.last() == rows0[k]);
            assert_seqs_equal!(upto.drop_last() == rows0.subrange(0, k));
            k = k + 1;
        }
    }
    proof {
        assert_seqs_equal!(rows0.subrange(0, rows0.len() as int) == rows0);
    }
    out
}

} // verus!
