//! JSON text of the request bodies: objects of string values with their keys in order, and
//! arrays of strings, written as serde_json writes them.
use vstd::prelude::*;
use crate::text::{chars_le, str_le, str_eq, owned, push_str, join, lemma_text_le_total_ordering,
    text_le};
use crate::external::{json_quote, json_quoted};

verus! {

/// The views of a list of string pairs.
pub open spec fn pairs_view(s: Seq<(String, String)>) -> Seq<(Seq<char>, Seq<char>)> {
    s.map_values(|p: (String, String)| (p.0@, p.1@))
}

/// The map that a list of pairs makes when later pairs replace earlier ones of the same key.
pub open spec fn pairs_map(s: Seq<(Seq<char>, Seq<char>)>) -> Map<Seq<char>, Seq<char>>
    decreases s.len(),
{
    if s.len() == 0 {
        Map::empty()
    } else {
        pairs_map(s.drop_last()).insert(s.last().0, s.last().1)
    }
}

/// `p` put into the key-ordered list `r`: in place of the pair of the same key, or before the
/// first pair of a greater key.
pub open spec fn sorted_insert(r: Seq<(Seq<char>, Seq<char>)>, p: (Seq<char>, Seq<char>)) -> Seq<(Seq<char>, Seq<char>)>
    decreases r.len(),
{
    if r.len() == 0 {
        seq![p]
    } else if r[0].0 == p.0 {
        seq![p] + r.drop_first()
    } else if chars_le(p.0, r[0].0) {
        seq![p] + r
    } else {
        seq![r[0]] + sorted_insert(r.drop_first(), p)
    }
}

/// The pairs of a list with one pair per key, the last given for it, in the order of keys:
/// the entries of a JSON object built from the list.
pub open spec fn canonical_pairs(s: Seq<(Seq<char>, Seq<char>)>) -> Seq<(Seq<char>, Seq<char>)>
    decreases s.len(),
{
    if s.len() == 0 {
        Seq::empty()
    } else {
        sorted_insert(canonical_pairs(s.drop_last()), s.last())
    }
}

/// No key occurs twice in the list.
pub open spec fn keys_distinct(r: Seq<(Seq<char>, Seq<char>)>) -> bool {
    forall|i: int, j: int| 0 <= i < j < r.len() ==> r[i].0 != r[j].0
}

/// Keys strictly increase along the list.
pub open spec fn keys_strictly_sorted(r: Seq<(Seq<char>, Seq<char>)>) -> bool {
    forall|i: int, j: int| #![trigger r[i], r[j]] 0 <= i < j < r.len() ==> chars_le(r[i].0, r[j].0) && r[i].0 != r[j].0
}

/// Keys that strictly increase are distinct.
pub proof fn lemma_sorted_keys_distinct(r: Seq<(Seq<char>, Seq<char>)>)
    requires
        keys_strictly_sorted(r),
    ensures
        keys_distinct(r),
{
    assert forall|i: int, j: int| 0 <= i < j < r.len() implies r[i].0 != r[j].0 by {
        assert(r[i].0 != r[j].0);
    }
}

proof fn lemma_sorted_insert_split(r: Seq<(Seq<char>, Seq<char>)>, p: (Seq<char>, Seq<char>), i: int)
    requires
        0 <= i <= r.len(),
        forall|k: int| 0 <= k < i ==> r[k].0 != p.0 && !chars_le(p.0, #[trigger] r[k].0),
        i < r.len() ==> (r[i].0 == p.0 || chars_le(p.0, r[i].0)),
    ensures
        sorted_insert(r, p) == (if i < r.len() && r[i].0 == p.0 {
            r.take(i) + seq![p] + r.skip(i + 1)
        } else {
            r.take(i) + seq![p] + r.skip(i)
        }),
    decreases i,
{
    if i == 0 {
        assert(r.take(0) =~= Seq::<(Seq<char>, Seq<char>)>::empty());
        if r.len() > 0 {
            assert(r.skip(1) =~= r.drop_first());
            assert(r.skip(0) =~= r);
        } else {
            assert(r.skip(0) =~= r);
        }
    } else {
        let t = r.drop_first();
        assert forall|k: int| 0 <= k < i - 1 implies t[k].0 != p.0 && !chars_le(p.0, #[trigger] t[k].0) by {
            assert(t[k] == r[k + 1]);
        }
        lemma_sorted_insert_split(t, p, i - 1);
        assert(r.take(i) =~= seq![r[0]] + t.take(i - 1));
        assert(r.skip(i) =~= t.skip(i - 1));
        if i < r.len() {
            assert(r.skip(i + 1) =~= t.skip(i));
        }
        if i < r.len() && r[i].0 == p.0 {
            assert(sorted_insert(r, p) =~= r.take(i) + seq![p] + r.skip(i + 1));
        } else {
            assert(sorted_insert(r, p) =~= r.take(i) + seq![p] + r.skip(i));
        }
    }
}

/// Puts `p` into the key-ordered list `r`.
fn sorted_insert_exec(r: &mut Vec<(String, String)>, p: (String, String))
    ensures
        pairs_view(final(r)@) == sorted_insert(pairs_view(old(r)@), (p.0@, p.1@)),
{
    let ghost rv = pairs_view(r@);
    let ghost pv = (p.0@, p.1@);
    let n = r.len();
    let mut i: usize = 0;
    while i < n && !(str_eq(r[i].0.as_str(), p.0.as_str()) || str_le(p.0.as_str(), r[i].0.as_str()))
        invariant
            n == r@.len(),
            rv == pairs_view(r@),
            pv == (p.0@, p.1@),
            i <= n,
            forall|k: int| 0 <= k < i ==> rv[k].0 != pv.0 && !chars_le(pv.0, #[trigger] rv[k].0),
        decreases n - i,
    {
        i = i + 1;
    }
    proof {
        lemma_sorted_insert_split(rv, pv, i as int);
    }
    if i < n && str_eq(r[i].0.as_str(), p.0.as_str()) {
        r.set(i, p);
        proof {
            assert(pairs_view(r@) =~= rv.take(i as int) + seq![pv] + rv.skip(i + 1));
        }
    } else {
        r.insert(i, p);
        proof {
            assert(pairs_view(r@) =~= rv.take(i as int) + seq![pv] + rv.skip(i as int));
        }
    }
}

/// The entries of a JSON object built from a list of pairs: one per key, the last given for
/// it, in the order of keys.
pub fn canonical_string_pairs(pairs: &[(String, String)]) -> (res: Vec<(String, String)>)
    ensures
        pairs_view(res@) == canonical_pairs(pairs_view(pairs@)),
{
    let mut r: Vec<(String, String)> = Vec::new();
    let n = pairs.len();
    let mut i: usize = 0;
    while i < n
        invariant
            n == pairs@.len(),
            i <= n,
            pairs_view(r@) == canonical_pairs(pairs_view(pairs@).take(i as int)),
        decreases n - i,
    {
        let p = (pairs[i].0.clone(), pairs[i].1.clone());
        sorted_insert_exec(&mut r, p);
        proof {
            let t = pairs_view(pairs@).take(i + 1);
            assert(t.drop_last() =~= pairs_view(pairs@).take(i as int));
        }
        i = i + 1;
    }
    assert(pairs_view(pairs@).take(n as int) =~= pairs_view(pairs@));
    r
}

/// Whether some pair of the list has key `k`.
pub open spec fn has_key(s: Seq<(Seq<char>, Seq<char>)>, k: Seq<char>) -> bool {
    exists|j: int| 0 <= j < s.len() && (#[trigger] s[j]).0 == k
}

proof fn lemma_sorted_insert_props(r: Seq<(Seq<char>, Seq<char>)>, p: (Seq<char>, Seq<char>))
    requires
        keys_strictly_sorted(r),
    ensures
        keys_strictly_sorted(sorted_insert(r, p)),
        pairs_map(sorted_insert(r, p)) == pairs_map(r).insert(p.0, p.1),
        forall|k: Seq<char>| #[trigger] has_key(sorted_insert(r, p), k) ==> (k == p.0 || has_key(r, k)),
    decreases r.len(),
{
    lemma_text_le_total_ordering();
    let s = sorted_insert(r, p);
    if r.len() == 0 {
        assert(pairs_map(seq![p]) =~= pairs_map(Seq::empty()).insert(p.0, p.1)) by {
            assert(seq![p].drop_last() =~= Seq::<(Seq<char>, Seq<char>)>::empty());
        }
    } else {
        let t = r.drop_first();
        assert(keys_strictly_sorted(t));
        assert forall|j: int| 0 < j < r.len() implies (#[trigger] r[j]).0 != r[0].0 by {
            assert(chars_le(r[0].0, r[j].0) && r[0].0 != r[j].0);
        }
        lemma_pairs_map_cons(r);
        if r[0].0 == p.0 {
            assert(s =~= seq![p] + t);
            lemma_pairs_map_cons(s);
            assert(s.drop_first() =~= t);
            assert(pairs_map(s) =~= pairs_map(r).insert(p.0, p.1)) by {
                lemma_pairs_map_first_absent(t, p.0);
            }
            assert forall|k: Seq<char>| #[trigger] has_key(s, k) implies (k == p.0 || has_key(r, k)) by {
                let j = choose|j: int| 0 <= j < s.len() && (#[trigger] s[j]).0 == k;
                if j > 0 {
                    assert(r[j].0 == k);
                }
            }
        } else if chars_le(p.0, r[0].0) {
            assert(s =~= seq![p] + r);
            assert forall|j: int| 0 < j < r.len() implies (#[trigger] r[j]).0 != p.0 by {
                assert(chars_le(r[0].0, r[j].0));
                if r[j].0 == p.0 {
                    assert(text_le()(r[0].0, p.0));
                    assert(text_le()(p.0, r[0].0));
                }
            }
            assert forall|j: int| 0 < j < s.len() implies (#[trigger] s[j]).0 != s[0].0 by {
                assert(s[j] == r[j - 1]);
            }
            lemma_pairs_map_cons(s);
            assert(s.drop_first() =~= r);
            assert forall|a: int, b: int| 0 <= a < b < s.len() implies chars_le(s[a].0, s[b].0) && s[a].0 != s[b].0 by {
                if a == 0 {
                    assert(s[b] == r[b - 1]);
                    if b > 1 {
                        assert(chars_le(r[0].0, r[b - 1].0));
                        assert(text_le()(p.0, r[0].0));
                        assert(text_le()(r[0].0, r[b - 1].0));
                    }
                } else {
                    assert(s[a] == r[a - 1]);
                    assert(s[b] == r[b - 1]);
                }
            }
            assert(pairs_map(s) =~= pairs_map(r).insert(p.0, p.1)) by {
                lemma_pairs_map_first_absent(r, p.0);
            }
            assert forall|k: Seq<char>| #[trigger] has_key(s, k) implies (k == p.0 || has_key(r, k)) by {
                let j = choose|j: int| 0 <= j < s.len() && (#[trigger] s[j]).0 == k;
                if j > 0 {
                    assert(r[j - 1].0 == k);
                }
            }
        } else {
            lemma_sorted_insert_props(t, p);
            let u = sorted_insert(t, p);
            assert(s =~= seq![r[0]] + u);
            assert forall|j: int| 0 < j < s.len() implies (#[trigger] s[j]).0 != s[0].0 by {
                let k = s[j].0;
                assert(u[j - 1].0 == k);
                assert(has_key(u, k));
                if k != p.0 {
                    assert(has_key(t, k));
                    let m = choose|m: int| 0 <= m < t.len() && (#[trigger] t[m]).0 == k;
                    assert(r[m + 1].0 == k);
                    assert(chars_le(r[0].0, r[m + 1].0) && r[0].0 != r[m + 1].0);
                }
            }
            lemma_pairs_map_cons(s);
            assert(s.drop_first() =~= u);
            assert forall|a: int, b: int| 0 <= a < b < s.len() implies chars_le(s[a].0, s[b].0) && s[a].0 != s[b].0 by {
                if a == 0 {
                    let k = s[b].0;
                    assert(u[b - 1].0 == k);
                    assert(has_key(u, k));
                    if k == p.0 {
                        assert(text_le()(p.0, r[0].0) || text_le()(r[0].0, p.0));
                    } else {
                        assert(has_key(t, k));
                        let j = choose|j: int| 0 <= j < t.len() && (#[trigger] t[j]).0 == k;
                        assert(r[j + 1].0 == k);
                    }
                }
            }
            assert(pairs_map(s) =~= pairs_map(r).insert(p.0, p.1));
            assert forall|k: Seq<char>| #[trigger] has_key(s, k) implies (k == p.0 || has_key(r, k)) by {
                let j = choose|j: int| 0 <= j < s.len() && (#[trigger] s[j]).0 == k;
                if j > 0 {
                    assert(u[j - 1].0 == k);
                    assert(has_key(u, k));
                    if k != p.0 {
                        assert(has_key(t, k));
                        let m = choose|m: int| 0 <= m < t.len() && (#[trigger] t[m]).0 == k;
                        assert(r[m + 1].0 == k);
                    }
                } else {
                    assert(r[0].0 == k);
                }
            }
        }
    }
}

/// The map of a list whose first key occurs nowhere else: the map of the rest with the first pair.
proof fn lemma_pairs_map_cons(s: Seq<(Seq<char>, Seq<char>)>)
    requires
        s.len() > 0,
        forall|j: int| 0 < j < s.len() ==> (#[trigger] s[j]).0 != s[0].0,
    ensures
        pairs_map(s) == pairs_map(s.drop_first()).insert(s[0].0, s[0].1),
    decreases s.len(),
{
    if s.len() == 1 {
        assert(s.drop_first() =~= Seq::<(Seq<char>, Seq<char>)>::empty());
        assert(s.drop_last() =~= Seq::<(Seq<char>, Seq<char>)>::empty());
        assert(pairs_map(s) =~= pairs_map(s.drop_first()).insert(s[0].0, s[0].1));
    } else {
        let d = s.drop_last();
        lemma_pairs_map_cons(d);
        assert(d.drop_first() =~= s.drop_first().drop_last());
        assert(s.drop_first().last() == s.last());
        assert(pairs_map(s) =~= pairs_map(s.drop_first()).insert(s[0].0, s[0].1));
    }
}

/// A key absent from a list is absent from its map.
proof fn lemma_pairs_map_first_absent(s: Seq<(Seq<char>, Seq<char>)>, k: Seq<char>)
    ensures
        (forall|j: int| 0 <= j < s.len() ==> s[j].0 != k) ==> !pairs_map(s).contains_key(k),
        pairs_map(s).contains_key(k) ==> exists|j: int| 0 <= j < s.len() && s[j].0 == k,
    decreases s.len(),
{
    if s.len() > 0 {
        lemma_pairs_map_first_absent(s.drop_last(), k);
        if pairs_map(s).contains_key(k) && k != s.last().0 {
            let j = choose|j: int| 0 <= j < s.drop_last().len() && s.drop_last()[j].0 == k;
            assert(s[j].0 == k);
        }
        if pairs_map(s).contains_key(k) && k == s.last().0 {
            assert(s[s.len() - 1].0 == k);
        }
    }
}

/// The entries of a JSON object built from pairs have strictly increasing keys, and map each
/// key given to the last value given for it.
pub proof fn law_canonical_pairs(s: Seq<(Seq<char>, Seq<char>)>)
    ensures
        keys_strictly_sorted(canonical_pairs(s)),
        pairs_map(canonical_pairs(s)) == pairs_map(s),
    decreases s.len(),
{
    if s.len() > 0 {
        law_canonical_pairs(s.drop_last());
        lemma_sorted_insert_props(canonical_pairs(s.drop_last()), s.last());
    }
}

/// One entry of a JSON object of strings.
pub open spec fn json_entry(p: (Seq<char>, Seq<char>)) -> Seq<char> {
    json_quoted(p.0) + ":"@ + json_quoted(p.1)
}

/// A JSON object with the given entries, in order.
pub open spec fn json_string_object(entries: Seq<(Seq<char>, Seq<char>)>) -> Seq<char> {
    "{"@ + join(entries.map_values(|p: (Seq<char>, Seq<char>)| json_entry(p)), ","@) + "}"@
}

/// Appends a JSON object with the given entries, in order.
pub fn push_string_object(out: &mut String, entries: &[(String, String)])
    ensures
        final(out)@ == old(out)@ + json_string_object(pairs_view(entries@)),
{
    let ghost items = pairs_view(entries@).map_values(|p: (Seq<char>, Seq<char>)| json_entry(p));
    let ghost start = out@;
    push_str(out, "{");
    let n = entries.len();
    let mut i: usize = 0;
    while i < n
        invariant
            n == entries@.len(),
            i <= n,
            items == pairs_view(entries@).map_values(|p: (Seq<char>, Seq<char>)| json_entry(p)),
            out@ == start + "{"@ + join(items.take(i as int), ","@),
        decreases n - i,
    {
        let ghost before = out@;
        if i > 0 {
            push_str(out, ",");
        }
        let k = json_quote(entries[i].0.as_str());
        push_str(out, k.as_str());
        push_str(out, ":");
        let v = json_quote(entries[i].1.as_str());
        push_str(out, v.as_str());
        proof {
            let t = items.take(i + 1);
            assert(t.drop_last() =~= items.take(i as int));
            assert(t.last() == json_entry((entries@[i as int].0@, entries@[i as int].1@)));
            if i == 0 {
                assert(join(t, ","@) == t[0]);
                assert(out@ =~= start + "{"@ + join(t, ","@));
            } else {
                assert(out@ =~= start + "{"@ + join(t, ","@));
            }
        }
        i = i + 1;
    }
    assert(items.take(n as int) =~= items);
    push_str(out, "}");
}

/// A JSON array of strings.
pub open spec fn json_string_array(items: Seq<Seq<char>>) -> Seq<char> {
    "["@ + join(items.map_values(|s: Seq<char>| json_quoted(s)), ","@) + "]"@
}

/// Appends a JSON array of strings.
pub fn push_string_array(out: &mut String, items: &[String])
    ensures
        final(out)@ == old(out)@ + json_string_array(crate::text::views(items@)),
{
    let ghost q = crate::text::views(items@).map_values(|s: Seq<char>| json_quoted(s));
    let ghost start = out@;
    push_str(out, "[");
    let n = items.len();
    let mut i: usize = 0;
    while i < n
        invariant
            n == items@.len(),
            i <= n,
            q == crate::text::views(items@).map_values(|s: Seq<char>| json_quoted(s)),
            out@ == start + "["@ + join(q.take(i as int), ","@),
        decreases n - i,
    {
        if i > 0 {
            push_str(out, ",");
        }
        let v = json_quote(items[i].as_str());
        push_str(out, v.as_str());
        proof {
            let t = q.take(i + 1);
            assert(t.drop_last() =~= q.take(i as int));
            assert(t.last() == json_quoted(items@[i as int]@));
            if i == 0 {
                assert(join(t, ","@) == t[0]);
            }
            assert(out@ =~= start + "["@ + join(t, ","@));
        }
        i = i + 1;
    }
    assert(q.take(n as int) =~= q);
    push_str(out, "]");
}

} // verus!
