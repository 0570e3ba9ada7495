use vstd::prelude::*;
use crate::json::{entries_view, key_less, key_lt, Json, JsonValue};
use crate::order::{lemma_key_lt_asym, lemma_key_lt_irrefl, lemma_key_lt_total, lemma_key_lt_trans};

verus! {

broadcast use vstd::std_specs::vec::group_vec_axioms;

pub type Entries = Seq<(Seq<char>, Json)>;

/// The first position at or after `i` where key `k` belongs in an ordered
/// object: the entry holding `k`, or the first entry above `k`, or the end.
pub open spec fn slot_from(es: Entries, k: Seq<char>, i: int) -> int
    decreases es.len() - i,
{
    if i < 0 || i >= es.len() {
        es.len() as int
    } else if es[i].0 == k || key_lt(k, es[i].0) {
        i
    } else {
        slot_from(es, k, i + 1)
    }
}

pub open spec fn slot(es: Entries, k: Seq<char>) -> int {
    slot_from(es, k, 0)
}

/// Whether the slot of `k` holds `k` itself.
pub open spec fn holds_at_slot(es: Entries, k: Seq<char>) -> bool {
    slot(es, k) < es.len() && es[slot(es, k)].0 == k
}

/// The value stored under key `k`, if any.
pub open spec fn obj_get(es: Entries, k: Seq<char>) -> Option<Json> {
    if holds_at_slot(es, k) {
        Some(es[slot(es, k)].1)
    } else {
        None
    }
}

/// The value under `k`, or `Null` where there is none.
pub open spec fn get_or_null(es: Entries, k: Seq<char>) -> Json {
    match obj_get(es, k) {
        Some(v) => v,
        None => Json::Null,
    }
}

/// The object with `k` bound to `v`: the entry is replaced where it exists
/// and inserted at its ordered place otherwise.
pub open spec fn obj_put(es: Entries, k: Seq<char>, v: Json) -> Entries {
    if holds_at_slot(es, k) {
        es.update(slot(es, k), (k, v))
    } else {
        es.insert(slot(es, k), (k, v))
    }
}

/// Keys strictly increase.
pub open spec fn sorted_keys(es: Entries) -> bool {
    forall|i: int, j: int| 0 <= i < j < es.len() ==> key_lt(#[trigger] es[i].0, #[trigger] es[j].0)
}

proof fn lemma_slot_props(es: Entries, k: Seq<char>, i: int)
    requires
        0 <= i <= es.len(),
    ensures
        i <= slot_from(es, k, i) <= es.len(),
        forall|j: int|
            i <= j < slot_from(es, k, i) ==> #[trigger] es[j].0 != k && !key_lt(k, es[j].0),
        slot_from(es, k, i) < es.len() ==> (es[slot_from(es, k, i)].0 == k || key_lt(
            k,
            es[slot_from(es, k, i)].0,
        )),
    decreases es.len() - i,
{
    if i < es.len() && !(es[i].0 == k || key_lt(k, es[i].0)) {
        lemma_slot_props(es, k, i + 1);
    }
}

proof fn lemma_slot_unique(es: Entries, k: Seq<char>, i: int, r: int)
    requires
        0 <= i <= r <= es.len(),
        forall|j: int| i <= j < r ==> #[trigger] es[j].0 != k && !key_lt(k, es[j].0),
        r < es.len() ==> (es[r].0 == k || key_lt(k, es[r].0)),
    ensures
        slot_from(es, k, i) == r,
    decreases r - i,
{
    if i < r {
        lemma_slot_unique(es, k, i + 1, r);
    }
}

/// The slot of `k`, characterised.
pub proof fn lemma_slot(es: Entries, k: Seq<char>)
    ensures
        0 <= slot(es, k) <= es.len(),
        forall|j: int| 0 <= j < slot(es, k) ==> #[trigger] es[j].0 != k && !key_lt(k, es[j].0),
        slot(es, k) < es.len() ==> (es[slot(es, k)].0 == k || key_lt(k, es[slot(es, k)].0)),
{
    lemma_slot_props(es, k, 0);
}

/// Any position with the properties of the slot is the slot.
pub proof fn lemma_slot_is(es: Entries, k: Seq<char>, r: int)
    requires
        0 <= r <= es.len(),
        forall|j: int| 0 <= j < r ==> #[trigger] es[j].0 != k && !key_lt(k, es[j].0),
        r < es.len() ==> (es[r].0 == k || key_lt(k, es[r].0)),
    ensures
        slot(es, k) == r,
{
    lemma_slot_unique(es, k, 0, r);
}

/// Reading a key after binding a key.
pub proof fn lemma_get_put(es: Entries, k: Seq<char>, v: Json, q: Seq<char>)
    ensures
        obj_get(obj_put(es, k, v), q) == if q == k {
            Some(v)
        } else {
            obj_get(es, q)
        },
{
    let n = obj_put(es, k, v);
    let s = slot(es, k);
    lemma_slot(es, k);
    lemma_slot(es, q);
    let t = slot(es, q);
    if q == k {
        lemma_slot_is(n, k, s);
    } else if holds_at_slot(es, k) {
        // the entries keep their places; only the value at `s` changes
        assert forall|j: int| 0 <= j < n.len() implies #[trigger] n[j].0 == es[j].0 by {}
        lemma_slot_is(n, q, t);
    } else {
        if key_lt(q, k) {
            if s < es.len() {
                lemma_key_lt_trans(q, k, es[s].0);
            }
            if t > s {
                assert(!key_lt(q, es[s].0));
            }
            assert(t <= s);
            if t < s {
                lemma_slot_is(n, q, t);
            } else {
                lemma_slot_is(n, q, s);
                if s < es.len() && es[s].0 == q {
                    lemma_key_lt_trans(q, k, q);
                    lemma_key_lt_irrefl(q);
                }
            }
        } else {
            lemma_key_lt_total(q, k);
            if t < s {
                assert(es[t].0 == q || key_lt(q, es[t].0));
                if key_lt(q, es[t].0) {
                    lemma_key_lt_trans(k, q, es[t].0);
                }
                assert(false);
            }
            assert forall|j: int| 0 <= j < t + 1 implies #[trigger] n[j].0 != q && !key_lt(
                q,
                n[j].0,
            ) by {
                if j == s {
                    lemma_key_lt_asym(k, q);
                }
            }
            lemma_slot_is(n, q, t + 1);
        }
    }
}

/// In an object with increasing keys, the slot of a stored key is its entry.
pub proof fn lemma_sorted_slot(es: Entries, m: int)
    requires
        sorted_keys(es),
        0 <= m < es.len(),
    ensures
        slot(es, es[m].0) == m,
        obj_get(es, es[m].0) == Some(es[m].1),
{
    let k = es[m].0;
    assert forall|j: int| 0 <= j < m implies #[trigger] es[j].0 != k && !key_lt(k, es[j].0) by {
        lemma_key_lt_asym(es[j].0, k);
        lemma_key_lt_irrefl(k);
    }
    lemma_slot_is(es, k, m);
}

/// A key that no entry holds reads as absent.
pub proof fn lemma_absent(es: Entries, k: Seq<char>)
    requires
        forall|i: int| 0 <= i < es.len() ==> #[trigger] es[i].0 != k,
    ensures
        obj_get(es, k) is None,
{
    lemma_slot(es, k);
}

/// Binding a key keeps the keys increasing.
pub proof fn lemma_put_sorted(es: Entries, k: Seq<char>, v: Json)
    requires
        sorted_keys(es),
    ensures
        sorted_keys(obj_put(es, k, v)),
{
    let n = obj_put(es, k, v);
    let s = slot(es, k);
    lemma_slot(es, k);
    if !holds_at_slot(es, k) {
        assert forall|i: int, j: int| 0 <= i < j < n.len() implies key_lt(
            #[trigger] n[i].0,
            #[trigger] n[j].0,
        ) by {
            if i < s && j == s {
                lemma_key_lt_total(es[i].0, k);
            } else if i < s && j > s {
                lemma_key_lt_total(es[i].0, k);
                if s < es.len() {
                    assert(key_lt(es[i].0, es[j - 1].0));
                }
            } else if i == s && j > s {
                if j - 1 > s {
                    lemma_key_lt_trans(k, es[s].0, es[j - 1].0);
                }
            }
        }
    }
}

/// Finds where key `k` belongs in `es`.
pub fn find_slot(es: &Vec<(String, JsonValue)>, k: &String) -> (r: usize)
    ensures
        r == slot(entries_view(es@), k@),
{
    let ghost ev = entries_view(es@);
    let mut i: usize = 0;
    while i < es.len()
        invariant
            ev == entries_view(es@),
            i <= es.len(),
            slot_from(ev, k@, 0) == slot_from(ev, k@, i as int),
        decreases es.len() - i,
    {
        if es[i].0 == *k || key_less(k, &es[i].0) {
            return i;
        }
        i = i + 1;
    }
    i
}

} // verus!
