//! Location paths: a slash-delimited hierarchy from root to leaf.  The leaf
//! segment is kept as a relevance hint and the remaining segments are joined
//! with a tab character, the delimiter the remote search index uses for its
//! hierarchical path field.

use vstd::prelude::*;
use vstd::string::*;
use crate::text::push_char;

verus! {

/// The segments of `s` split on `sep`, processed front to back: `cur` is the
/// segment being accumulated and `acc` holds the finished segments.
pub open spec fn split_accum(s: Seq<char>, sep: char, cur: Seq<char>, acc: Seq<Seq<char>>) -> Seq<
    Seq<char>,
>
    decreases s.len(),
{
    if s.len() == 0 {
        acc.push(cur)
    } else if s[0] == sep {
        split_accum(s.drop_first(), sep, Seq::empty(), acc.push(cur))
    } else {
        split_accum(s.drop_first(), sep, cur.push(s[0]), acc)
    }
}

/// The segments of `s` split on the separator `sep`, as `str::split` yields
/// them for a one-character pattern: never empty, and an empty input gives
/// one empty segment.
pub open spec fn split_on(s: Seq<char>, sep: char) -> Seq<Seq<char>> {
    split_accum(s, sep, Seq::empty(), Seq::empty())
}

pub proof fn lemma_split_accum_len(s: Seq<char>, sep: char, cur: Seq<char>, acc: Seq<Seq<char>>)
    ensures
        split_accum(s, sep, cur, acc).len() >= acc.len() + 1,
    decreases s.len(),
{
    if s.len() == 0 {
    } else if s[0] == sep {
        lemma_split_accum_len(s.drop_first(), sep, Seq::empty(), acc.push(cur));
    } else {
        lemma_split_accum_len(s.drop_first(), sep, cur.push(s[0]), acc);
    }
}

/// Splitting always yields at least one segment.
pub proof fn lemma_split_on_len(s: Seq<char>, sep: char)
    ensures
        split_on(s, sep).len() >= 1,
{
    lemma_split_accum_len(s, sep, Seq::empty(), Seq::empty());
}

/// The segments joined with `sep` between each neighbouring pair.
pub open spec fn join_with(parts: Seq<Seq<char>>, sep: char) -> Seq<char>
    decreases parts.len(),
{
    if parts.len() == 0 {
        Seq::empty()
    } else if parts.len() == 1 {
        parts[0]
    } else {
        join_with(parts.drop_last(), sep) + seq![sep] + parts.last()
    }
}

/// Whether `s` is free of the character `c`.
pub open spec fn free_of(s: Seq<char>, c: char) -> bool {
    forall|j: int| 0 <= j < s.len() ==> s[j] != c
}

proof fn lemma_split_accum_concat(s: Seq<char>, sep: char, cur: Seq<char>, acc: Seq<Seq<char>>)
    ensures
        split_accum(s, sep, cur, acc) =~= acc + split_accum(s, sep, cur, Seq::empty()),
    decreases s.len(),
{
    if s.len() == 0 {
        assert(acc.push(cur) =~= acc + Seq::<Seq<char>>::empty().push(cur));
    } else if s[0] == sep {
        lemma_split_accum_concat(s.drop_first(), sep, Seq::empty(), acc.push(cur));
        lemma_split_accum_concat(s.drop_first(), sep, Seq::empty(), Seq::empty().push(cur));
        assert(acc.push(cur) =~= acc + Seq::<Seq<char>>::empty().push(cur));
    } else {
        lemma_split_accum_concat(s.drop_first(), sep, cur.push(s[0]), acc);
    }
}

proof fn lemma_join_cons(x: Seq<char>, parts: Seq<Seq<char>>, sep: char)
    requires
        parts.len() >= 1,
    ensures
        join_with(seq![x] + parts, sep) =~= x + seq![sep] + join_with(parts, sep),
    decreases parts.len(),
{
    let whole = seq![x] + parts;
    if parts.len() == 1 {
        assert(whole.drop_last() =~= seq![x]);
        assert(whole.last() == parts[0]);
        assert(join_with(whole, sep) == join_with(seq![x], sep) + seq![sep] + parts[0]);
        assert(join_with(seq![x], sep) == x);
    } else {
        assert(whole.drop_last() =~= seq![x] + parts.drop_last());
        lemma_join_cons(x, parts.drop_last(), sep);
        assert(whole.last() == parts.last());
        assert(join_with(whole, sep) == join_with(seq![x] + parts.drop_last(), sep) + seq![sep]
            + parts.last());
        assert(join_with(whole, sep) =~= x + seq![sep] + (join_with(parts.drop_last(), sep)
            + seq![sep] + parts.last()));
    }
}

proof fn lemma_round_trip_accum(s: Seq<char>, sep: char, cur: Seq<char>)
    ensures
        join_with(split_accum(s, sep, cur, Seq::empty()), sep) =~= cur + s,
    decreases s.len(),
{
    if s.len() == 0 {
    } else if s[0] == sep {
        let rest = s.drop_first();
        let parts = split_accum(rest, sep, Seq::empty(), Seq::empty());
        lemma_split_accum_concat(rest, sep, Seq::empty(), Seq::empty().push(cur));
        assert(Seq::<Seq<char>>::empty().push(cur) =~= seq![cur]);
        lemma_split_accum_len(rest, sep, Seq::empty(), Seq::empty());
        lemma_join_cons(cur, parts, sep);
        lemma_round_trip_accum(rest, sep, Seq::empty());
        assert(Seq::<char>::empty() + rest =~= rest);
        assert(cur + seq![sep] + rest =~= cur + s);
    } else {
        lemma_round_trip_accum(s.drop_first(), sep, cur.push(s[0]));
        assert(cur.push(s[0]) + s.drop_first() =~= cur + s);
    }
}

proof fn lemma_no_sep_accum(s: Seq<char>, sep: char, cur: Seq<char>)
    requires
        free_of(cur, sep),
    ensures
        forall|i: int|
            0 <= i < split_accum(s, sep, cur, Seq::empty()).len() ==> free_of(
                #[trigger] split_accum(s, sep, cur, Seq::empty())[i],
                sep,
            ),
    decreases s.len(),
{
    let out = split_accum(s, sep, cur, Seq::empty());
    if s.len() == 0 {
        assert forall|i: int| 0 <= i < out.len() implies free_of(#[trigger] out[i], sep) by {
            assert(out[i] == cur);
        }
    } else if s[0] == sep {
        let rest = s.drop_first();
        let parts = split_accum(rest, sep, Seq::empty(), Seq::empty());
        lemma_split_accum_concat(rest, sep, Seq::empty(), Seq::empty().push(cur));
        assert(out =~= seq![cur] + parts);
        lemma_no_sep_accum(rest, sep, Seq::empty());
        assert forall|i: int| 0 <= i < out.len() implies free_of(#[trigger] out[i], sep) by {
            if i == 0 {
                assert(out[i] == cur);
            } else {
                assert(out[i] == parts[i - 1]);
                assert(free_of(parts[i - 1], sep));
            }
        }
    } else {
        assert(free_of(cur.push(s[0]), sep)) by {
            assert(forall|j: int|
                0 <= j < cur.len() ==> #[trigger] cur.push(s[0])[j] == cur[j]);
        }
        lemma_no_sep_accum(s.drop_first(), sep, cur.push(s[0]));
        let inner = split_accum(s.drop_first(), sep, cur.push(s[0]), Seq::empty());
        assert(out == inner);
        assert forall|i: int| 0 <= i < out.len() implies free_of(#[trigger] out[i], sep) by {
            assert(out[i] == inner[i]);
            assert(free_of(inner[i], sep));
        }
    }
}

/// Splitting is faithful: no segment contains the separator, and joining the
/// segments with the separator gives the original string back, so a string
/// has exactly one decomposition into separator-free segments.
pub proof fn lemma_split_join_round_trip(s: Seq<char>, sep: char)
    ensures
        join_with(split_on(s, sep), sep) == s,
        forall|i: int|
            0 <= i < split_on(s, sep).len() ==> free_of(#[trigger] split_on(s, sep)[i], sep),
{
    lemma_round_trip_accum(s, sep, Seq::empty());
    assert(Seq::<char>::empty() + s =~= s);
    lemma_no_sep_accum(s, sep, Seq::empty());
}

/// The final segment of a location path: the relevance hint for resolution.
pub open spec fn spec_leaf(path: Seq<char>) -> Seq<char> {
    split_on(path, '/').last()
}

/// All segments before the leaf, joined with the tab delimiter of the remote
/// search index.
pub open spec fn spec_ancestor(path: Seq<char>) -> Seq<char> {
    join_with(split_on(path, '/').drop_last(), '\t')
}

/// A decomposed location path: the tab-joined ancestors and the leaf segment.
pub struct LocationParts {
    pub ancestor_tabbed: String,
    pub leaf: String,
}

/// Splits `s` on `sep` into owned segments.
pub fn split_segments(s: &str, sep: char) -> (segs: Vec<String>)
    ensures
        segs.deep_view() == split_on(s@, sep),
        segs.len() >= 1,
{
    let len = s.unicode_len();
    let mut segs: Vec<String> = Vec::new();
    let mut cur = String::new();
    let mut i: usize = 0;
    proof {
        assert(s@.skip(0) =~= s@);
        assert(segs.deep_view() =~= Seq::<Seq<char>>::empty());
    }
    while i < len
        invariant
            i <= len,
            len == s@.len(),
            split_accum(s@.skip(i as int), sep, cur@, segs.deep_view()) == split_on(s@, sep),
        decreases len - i,
    {
        let c = s.get_char(i);
        proof {
            assert(s@.skip(i as int).drop_first() =~= s@.skip(i + 1));
            assert(s@.skip(i as int)[0] == s@[i as int]);
        }
        if c == sep {
            let ghost old_segs = segs.deep_view();
            let ghost old_cur = cur@;
            segs.push(cur);
            cur = String::new();
            proof {
                assert(segs.deep_view() =~= old_segs.push(old_cur));
            }
        } else {
            push_char(&mut cur, c);
        }
        i = i + 1;
    }
    proof {
        assert(s@.skip(len as int) =~= Seq::<char>::empty());
    }
    let ghost old_segs = segs.deep_view();
    let ghost old_cur = cur@;
    segs.push(cur);
    proof {
        assert(segs.deep_view() =~= old_segs.push(old_cur));
    }
    segs
}

/// Decomposes a location path into its tab-joined ancestor path and its leaf
/// segment.  Every path has at least one segment, so decomposition is total;
/// a single-segment path yields an empty ancestor path.
pub fn decompose_location(path: &str) -> (r: LocationParts)
    ensures
        r.leaf@ == spec_leaf(path@),
        r.ancestor_tabbed@ == spec_ancestor(path@),
{
    let mut segs = split_segments(path, '/');
    let ghost all = segs.deep_view();
    let leaf = match segs.pop() {
        Some(l) => l,
        None => String::new(),  // unreachable: there is always at least one segment
    };
    proof {
        assert(segs.deep_view() =~= all.drop_last());
    }
    let ghost rest = segs.deep_view();
    let mut anc = String::new();
    let mut i: usize = 0;
    while i < segs.len()
        invariant
            i <= segs.len(),
            rest == segs.deep_view(),
            rest.len() == segs.len(),
            anc@ == join_with(rest.take(i as int), '\t'),
        decreases segs.len() - i,
    {
        if i > 0 {
            push_char(&mut anc, '\t');
        }
        let seg: &String = &segs[i];
        anc.append(seg.as_str());
        proof {
            assert(seg@ == rest[i as int]);
            if i == 0 {
                assert(rest.take(1)[0] == rest[0]);
                assert(rest.take(1).len() == 1);
            } else {
                assert(rest.take(i + 1).drop_last() =~= rest.take(i as int));
                assert(rest.take(i + 1).last() == rest[i as int]);
            }
        }
        i = i + 1;
    }
    proof {
        assert(rest.take(rest.len() as int) =~= rest);
    }
    LocationParts { ancestor_tabbed: anc, leaf }
}

/// Decomposition is deterministic: the leaf is the last segment, the ancestor
/// path is the tab-join of all segments before it, there is always at least
/// one segment, a single-segment path has an empty ancestor path, the leaf
/// never contains a slash, and joining all segments back with slashes gives
/// the path again.
pub proof fn lemma_decomposition(path: Seq<char>)
    ensures
        split_on(path, '/').len() >= 1,
        spec_leaf(path) == split_on(path, '/').last(),
        spec_ancestor(path) == join_with(split_on(path, '/').drop_last(), '\t'),
        split_on(path, '/').len() == 1 ==> spec_ancestor(path) == Seq::<char>::empty(),
        free_of(spec_leaf(path), '/'),
        join_with(split_on(path, '/'), '/') == path,
{
    lemma_split_on_len(path, '/');
    lemma_split_join_round_trip(path, '/');
    if split_on(path, '/').len() == 1 {
        assert(split_on(path, '/').drop_last().len() == 0);
    }
    assert(spec_leaf(path) == split_on(path, '/')[split_on(path, '/').len() - 1]);
}

} // verus!
