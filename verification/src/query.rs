//! Query parameters as an ordered list of key and value pairs in which no
//! key occurs twice: a later value for a key replaces the earlier one.

use vstd::prelude::*;

verus! {

/// A key and its value, as texts.
pub type Pair = (Seq<char>, Seq<char>);

/// The texts of a list of pairs of strings.
pub open spec fn pairs_view(v: Seq<(String, String)>) -> Seq<Pair> {
    v.map_values(|p: (String, String)| (p.0@, p.1@))
}

/// The texts of a list of lists of pairs of strings.
pub open spec fn groups_view(v: Seq<Vec<(String, String)>>) -> Seq<Seq<Pair>> {
    v.map_values(|g: Vec<(String, String)>| pairs_view(g@))
}

/// The list with `key` set to `value`: in place where the key occurs, at the
/// end where it does not.
pub open spec fn upsert(acc: Seq<Pair>, key: Seq<char>, value: Seq<char>) -> Seq<Pair>
    decreases acc.len(),
{
    if acc.len() == 0 {
        seq![(key, value)]
    } else if acc[0].0 == key {
        seq![(key, value)] + acc.drop_first()
    } else {
        seq![acc[0]] + upsert(acc.drop_first(), key, value)
    }
}

/// The list that holds each key of `pairs` once, with the last value that
/// `pairs` gives it, the keys in the order of their first occurrence.
pub open spec fn merged(pairs: Seq<Pair>) -> Seq<Pair>
    decreases pairs.len(),
{
    if pairs.len() == 0 {
        Seq::empty()
    } else {
        upsert(merged(pairs.drop_last()), pairs.last().0, pairs.last().1)
    }
}

/// The map that a list of pairs stands for: each pair in turn is put into
/// the map, a later value replacing an earlier one.
pub open spec fn as_map(pairs: Seq<Pair>) -> Map<Seq<char>, Seq<char>>
    decreases pairs.len(),
{
    if pairs.len() == 0 {
        Map::empty()
    } else {
        as_map(pairs.drop_last()).insert(pairs.last().0, pairs.last().1)
    }
}

/// Whether no key occurs twice in the list.
pub open spec fn distinct_keys(pairs: Seq<Pair>) -> bool {
    forall|i: int, j: int|
        0 <= i < j < pairs.len() ==> (#[trigger] pairs[i]).0 != (#[trigger] pairs[j]).0
}

/// Whether the key occurs in the list.
pub open spec fn has_key(pairs: Seq<Pair>, key: Seq<char>) -> bool {
    exists|i: int| 0 <= i < pairs.len() && (#[trigger] pairs[i]).0 == key
}

/// One pair for a value that is there, none for a value that is not.
pub open spec fn optional_pair(key: Seq<char>, value: Option<Seq<char>>) -> Seq<Pair> {
    match value {
        Some(v) => seq![(key, v)],
        None => Seq::empty(),
    }
}

/// Where the key occurs first at `i`, setting it changes the pair at `i`.
pub proof fn lemma_upsert_found(acc: Seq<Pair>, key: Seq<char>, value: Seq<char>, i: int)
    requires
        0 <= i < acc.len(),
        acc[i].0 == key,
        forall|j: int| 0 <= j < i ==> (#[trigger] acc[j]).0 != key,
    ensures
        upsert(acc, key, value) == acc.update(i, (key, value)),
    decreases acc.len(),
{
    if i > 0 {
        let rest = acc.drop_first();
        assert forall|j: int| 0 <= j < i - 1 implies (#[trigger] rest[j]).0 != key by {}
        lemma_upsert_found(rest, key, value, i - 1);
    }
}

/// Where the key does not occur, setting it appends the pair.
pub proof fn lemma_upsert_absent(acc: Seq<Pair>, key: Seq<char>, value: Seq<char>)
    requires
        forall|j: int| 0 <= j < acc.len() ==> (#[trigger] acc[j]).0 != key,
    ensures
        upsert(acc, key, value) == acc.push((key, value)),
    decreases acc.len(),
{
    if acc.len() > 0 {
        let rest = acc.drop_first();
        assert forall|j: int| 0 <= j < rest.len() implies (#[trigger] rest[j]).0 != key by {}
        lemma_upsert_absent(rest, key, value);
    }
}

/// The keys of the map of a list are the keys that occur in the list.
pub proof fn lemma_map_keys(pairs: Seq<Pair>, key: Seq<char>)
    ensures
        as_map(pairs).dom().contains(key) <==> has_key(pairs, key),
    decreases pairs.len(),
{
    if pairs.len() > 0 {
        let front = pairs.drop_last();
        lemma_map_keys(front, key);
        if has_key(front, key) {
            let i = choose|i: int| 0 <= i < front.len() && (#[trigger] front[i]).0 == key;
            assert(pairs[i].0 == key);
        }
        if has_key(pairs, key) && pairs.last().0 != key {
            let i = choose|i: int| 0 <= i < pairs.len() && (#[trigger] pairs[i]).0 == key;
            assert(front[i].0 == key);
        }
    }
}

/// In a list without a repeated key, the map gives each key the value that
/// stands beside it.
pub proof fn lemma_map_of_distinct(pairs: Seq<Pair>, i: int)
    requires
        distinct_keys(pairs),
        0 <= i < pairs.len(),
    ensures
        as_map(pairs).dom().contains(pairs[i].0),
        as_map(pairs)[pairs[i].0] == pairs[i].1,
    decreases pairs.len(),
{
    if i < pairs.len() - 1 {
        let front = pairs.drop_last();
        assert forall|a: int, b: int| 0 <= a < b < front.len() implies (#[trigger] front[a]).0 != (
        #[trigger] front[b]).0 by {}
        lemma_map_of_distinct(front, i);
    }
}

/// Setting a key in a list without a repeated key leaves no key repeated.
pub proof fn lemma_upsert_keeps_keys_distinct(acc: Seq<Pair>, key: Seq<char>, value: Seq<char>)
    requires
        distinct_keys(acc),
    ensures
        distinct_keys(upsert(acc, key, value)),
        has_key(acc, key) ==> upsert(acc, key, value).len() == acc.len(),
        forall|i: int|
            0 <= i < acc.len() ==> (#[trigger] upsert(acc, key, value)[i]).0 == acc[i].0,
        forall|i: int|
            0 <= i < acc.len() && acc[i].0 != key ==> #[trigger] upsert(acc, key, value)[i]
                == acc[i],
        forall|i: int|
            acc.len() <= i < upsert(acc, key, value).len() ==> #[trigger] upsert(
                acc,
                key,
                value,
            )[i] == (key, value),
        exists|i: int|
            0 <= i < upsert(acc, key, value).len() && #[trigger] upsert(acc, key, value)[i] == (
                key,
                value,
            ),
{
    let out = upsert(acc, key, value);
    if has_key(acc, key) {
        let w = choose|i: int| 0 <= i < acc.len() && (#[trigger] acc[i]).0 == key;
        assert forall|j: int| 0 <= j < w implies (#[trigger] acc[j]).0 != key by {
            assert(acc[j].0 != acc[w].0);
        }
        lemma_upsert_found(acc, key, value, w);
        assert(out[w] == (key, value));
    } else {
        lemma_upsert_absent(acc, key, value);
        assert(out[acc.len() as int] == (key, value));
    }
}

/// Setting a key in a list without a repeated key is putting the key into
/// the map of the list.
pub proof fn lemma_upsert_is_insert(acc: Seq<Pair>, key: Seq<char>, value: Seq<char>)
    requires
        distinct_keys(acc),
    ensures
        distinct_keys(upsert(acc, key, value)),
        as_map(upsert(acc, key, value)) == as_map(acc).insert(key, value),
{
    let out = upsert(acc, key, value);
    let want = as_map(acc).insert(key, value);
    lemma_upsert_keeps_keys_distinct(acc, key, value);
    let at = choose|i: int| 0 <= i < out.len() && #[trigger] out[i] == (key, value);
    assert forall|k: Seq<char>| #[trigger] as_map(out).dom().contains(k) <==> want.dom().contains(
        k,
    ) by {
        lemma_map_keys(out, k);
        lemma_map_keys(acc, k);
        if has_key(out, k) && k != key {
            let i = choose|i: int| 0 <= i < out.len() && (#[trigger] out[i]).0 == k;
            assert(acc[i].0 == k);
        }
        if has_key(acc, k) {
            let i = choose|i: int| 0 <= i < acc.len() && (#[trigger] acc[i]).0 == k;
            assert(out[i].0 == k);
        }
        if k == key {
            assert(out[at].0 == key);
        }
    }
    assert forall|k: Seq<char>| #[trigger] as_map(out).dom().contains(k) implies as_map(out)[k]
        == want[k] by {
        lemma_map_keys(out, k);
        let i = choose|i: int| 0 <= i < out.len() && (#[trigger] out[i]).0 == k;
        lemma_map_of_distinct(out, i);
        if k != key {
            lemma_map_of_distinct(acc, i);
        } else {
            lemma_map_of_distinct(out, at);
        }
    }
}

/// The merged list holds no key twice and stands for the same map as the
/// list it was made from: every key of the list, with its last value.
pub proof fn lemma_merged_is_the_map(pairs: Seq<Pair>)
    ensures
        distinct_keys(merged(pairs)),
        as_map(merged(pairs)) == as_map(pairs),
    decreases pairs.len(),
{
    if pairs.len() > 0 {
        lemma_merged_is_the_map(pairs.drop_last());
        lemma_upsert_is_insert(merged(pairs.drop_last()), pairs.last().0, pairs.last().1);
    }
}

/// The map of two lists, one after the other, is the map of the first with
/// the map of the second laid over it.
pub proof fn lemma_map_of_concat(first: Seq<Pair>, second: Seq<Pair>)
    ensures
        as_map(first + second) == as_map(first).union_prefer_right(as_map(second)),
    decreases second.len(),
{
    if second.len() > 0 {
        lemma_map_of_concat(first, second.drop_last());
        assert((first + second).drop_last() =~= first + second.drop_last());
    }
}

/// Sets `key` to `value` in the list.
pub fn set_pair(acc: &mut Vec<(String, String)>, key: String, value: String)
    ensures
        pairs_view(final(acc)@) == upsert(pairs_view(old(acc)@), key@, value@),
{
    let ghost before = pairs_view(acc@);
    let mut i: usize = 0;
    while i < acc.len()
        invariant
            i <= acc.len(),
            *acc == *old(acc),
            forall|j: int| 0 <= j < i ==> (#[trigger] before[j]).0 != key@,
            before == pairs_view(acc@),
        decreases acc.len() - i,
    {
        if acc[i].0 == key {
            proof {
                lemma_upsert_found(before, key@, value@, i as int);
            }
            acc.set(i, (key, value));
            return;
        }
        i = i + 1;
    }
    proof {
        lemma_upsert_absent(before, key@, value@);
    }
    acc.push((key, value));
}

/// The list after each pair of `more` has been set in it, in order.
pub open spec fn upsert_all(acc: Seq<Pair>, more: Seq<Pair>) -> Seq<Pair>
    decreases more.len(),
{
    if more.len() == 0 {
        acc
    } else {
        upsert(upsert_all(acc, more.drop_last()), more.last().0, more.last().1)
    }
}

/// Setting more pairs in a merged list gives the merged list of both.
pub proof fn lemma_upsert_all_merged(pairs: Seq<Pair>, more: Seq<Pair>)
    ensures
        upsert_all(merged(pairs), more) == merged(pairs + more),
    decreases more.len(),
{
    if more.len() > 0 {
        lemma_upsert_all_merged(pairs, more.drop_last());
        assert((pairs + more).drop_last() =~= pairs + more.drop_last());
    }
}

/// Sets each pair of `more` in the list, in order.
pub fn set_pairs(acc: &mut Vec<(String, String)>, more: &Vec<(String, String)>)
    ensures
        pairs_view(final(acc)@) == upsert_all(pairs_view(old(acc)@), pairs_view(more@)),
{
    let ghost start = pairs_view(acc@);
    let ghost extra = pairs_view(more@);
    let mut i: usize = 0;
    while i < more.len()
        invariant
            i <= more.len(),
            extra == pairs_view(more@),
            pairs_view(acc@) == upsert_all(start, extra.take(i as int)),
        decreases more.len() - i,
    {
        let key = more[i].0.clone();
        let value = more[i].1.clone();
        proof {
            let longer = extra.take(i + 1);
            assert(longer.drop_last() =~= extra.take(i as int));
        }
        set_pair(acc, key, value);
        i = i + 1;
    }
    proof {
        assert(extra.take(more.len() as int) =~= extra);
    }
}

} // verus!
