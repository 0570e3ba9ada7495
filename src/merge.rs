use vstd::prelude::*;
use crate::json::{
    entries_view, items_view, lemma_array_view, lemma_object_view, lemma_view_variant, Json,
    JsonValue,
};
use crate::object::{find_slot, get_or_null, holds_at_slot, lemma_slot, obj_put, slot, Entries};
use crate::json::wf;
use crate::laws::lemma_merge_wf;

verus! {

broadcast use vstd::std_specs::vec::group_vec_axioms;

/// The sequence with each run of equal neighbours collapsed to its first
/// element.  Equal elements that are not neighbours all stay.
pub open spec fn dedup(s: Seq<Json>) -> Seq<Json>
    decreases s.len(),
{
    if s.len() <= 1 {
        s
    } else if s[s.len() - 1] == s[s.len() - 2] {
        dedup(s.drop_last())
    } else {
        dedup(s.drop_last()).push(s[s.len() - 1])
    }
}

/// The result of overlaying `b` onto `a`.
///
/// Two objects merge key by key, recursively; an array takes the elements of
/// an incoming array, or an incoming object as one more element, and then
/// collapses equal neighbours; any other pair yields `b`.
pub open spec fn merge_spec(a: Json, b: Json) -> Json
    decreases b, 0int,
{
    match b {
        Json::Object(eb) => match a {
            Json::Object(ea) => Json::Object(merge_entries(ea, eb, eb.len() as int)),
            Json::Array(xa) => Json::Array(dedup(xa.push(b))),
            _ => b,
        },
        Json::Array(xb) => match a {
            Json::Array(xa) => Json::Array(dedup(xa + xb)),
            _ => b,
        },
        _ => b,
    }
}

/// The entries `ea` after the first `n` entries of `eb` were merged in, in order.
pub open spec fn merge_entries(ea: Entries, eb: Entries, n: int) -> Entries
    decreases eb, n,
{
    if n <= 0 || n > eb.len() {
        ea
    } else {
        let acc = merge_entries(ea, eb, n - 1);
        let k = eb[n - 1].0;
        obj_put(acc, k, merge_spec(get_or_null(acc, k), eb[n - 1].1))
    }
}

/// Collapses each run of equal neighbours in `xs` to its first element.
pub fn dedup_values(xs: &Vec<JsonValue>) -> (r: Vec<JsonValue>)
    ensures
        items_view(r@) == dedup(items_view(xs@)),
{
    let ghost s = items_view(xs@);
    let mut out: Vec<JsonValue> = Vec::new();
    let mut i: usize = 0;
    while i < xs.len()
        invariant
            s == items_view(xs@),
            i <= xs.len(),
            items_view(out@) == dedup(s.take(i as int)),
        decreases xs.len() - i,
    {
        let ghost before = out@;
        if i == 0 || !xs[i].same_as(&xs[i - 1]) {
            out.push(xs[i].deep_clone());
        }
        proof {
            let t = s.take(i as int + 1);
            assert(t.drop_last() =~= s.take(i as int));
            if i == 0 {
                assert(items_view(out@) =~= t);
            } else if s[i as int] == s[i as int - 1] {
                assert(out@ == before);
            } else {
                assert(items_view(out@) =~= items_view(before).push(s[i as int]));
            }
        }
        i = i + 1;
    }
    assert(s.take(xs.len() as int) =~= s);
    out
}

/// Overlays `b` onto `a`, by the rules of `merge_spec`.
pub fn merge_values(a: JsonValue, b: JsonValue) -> (r: JsonValue)
    ensures
        r@ == merge_spec(a@, b@),
    decreases b,
{
    proof {
        lemma_view_variant(a);
        lemma_view_variant(b);
    }
    match b {
        JsonValue::Object(eb) => {
            proof {
                lemma_object_view(eb);
            }
            match a {
                JsonValue::Object(ea) => {
                    proof {
                        lemma_object_view(ea);
                    }
                    let ghost av = entries_view(ea@);
                    let ghost bv = entries_view(eb@);
                    let ghost b0 = eb@;
                    let mut acc = ea;
                    let mut rest = eb;
                    let n = rest.len();
                    let mut i: usize = 0;
                    while i < n
                        invariant
                            n == b0.len(),
                            bv == entries_view(b0),
                            i <= n,
                            rest@ == b0.skip(i as int),
                            entries_view(acc@) == merge_entries(av, bv, i as int),
                            decreases_to!(b => b0),
                        decreases n - i,
                    {
                        let (k, v) = rest.remove(0);
                        proof {
                            assert(b0[i as int] == (k, v));
                            assert(decreases_to!(b0 => b0[i as int]));
                            assert(rest@ =~= b0.skip(i as int + 1));
                        }
                        let ghost accv = entries_view(acc@);
                        let p = find_slot(&acc, &k);
                        proof {
                            lemma_slot(accv, k@);
                        }
                        if p < acc.len() && acc[p].0 == k {
                            let (kk, old_child) = acc.remove(p);
                            assert(old_child@ == get_or_null(accv, k@));
                            let merged = merge_values(old_child, v);
                            acc.insert(p, (kk, merged));
                            proof {
                                assert(entries_view(acc@) =~= accv.update(
                                    p as int,
                                    (k@, merged@),
                                ));
                            }
                        } else {
                            let merged = merge_values(JsonValue::Null, v);
                            acc.insert(p, (k, merged));
                            proof {
                                assert(!holds_at_slot(accv, k@));
                                assert(entries_view(acc@) =~= accv.insert(
                                    p as int,
                                    (k@, merged@),
                                ));
                            }
                        }
                        i = i + 1;
                    }
                    proof {
                        lemma_object_view(acc);
                    }
                    JsonValue::Object(acc)
                },
                JsonValue::Array(xa) => {
                    proof {
                        lemma_array_view(xa);
                    }
                    let mut xa = xa;
                    let ghost before = items_view(xa@);
                    xa.push(JsonValue::Object(eb));
                    proof {
                        assert(items_view(xa@) =~= before.push(b@));
                    }
                    let r = dedup_values(&xa);
                    proof {
                        lemma_array_view(r);
                    }
                    JsonValue::Array(r)
                },
                _ => JsonValue::Object(eb),
            }
        },
        JsonValue::Array(xb) => {
            proof {
                lemma_array_view(xb);
            }
            match a {
                JsonValue::Array(xa) => {
                    proof {
                        lemma_array_view(xa);
                    }
                    let mut xa = xa;
                    let mut xb = xb;
                    let ghost s1 = items_view(xa@);
                    let ghost s2 = items_view(xb@);
                    xa.append(&mut xb);
                    proof {
                        assert(items_view(xa@) =~= s1 + s2);
                    }
                    let r = dedup_values(&xa);
                    proof {
                        lemma_array_view(r);
                    }
                    JsonValue::Array(r)
                },
                _ => JsonValue::Array(xb),
            }
        },
        other => other,
    }
}

impl JsonValue {
    /// Overlays `incoming` onto this value, by the rules of `merge_spec`.
    pub fn merge(&mut self, incoming: JsonValue)
        ensures
            final(self)@ == merge_spec(old(self)@, incoming@),
            wf(old(self)@) && wf(incoming@) ==> wf(final(self)@),
    {
        proof {
            if wf(self@) && wf(incoming@) {
                lemma_merge_wf(self@, incoming@);
            }
        }
        let mut current = JsonValue::Null;
        std::mem::swap(&mut current, self);
        *self = merge_values(current, incoming);
    }
}

/// Overlays `b` onto `a`, by the rules of `merge_spec`.
pub fn merge_json(a: &mut JsonValue, b: JsonValue)
    ensures
        final(a)@ == merge_spec(old(a)@, b@),
        wf(old(a)@) && wf(b@) ==> wf(final(a)@),
{
    a.merge(b);
}

} // verus!
