use vstd::prelude::*;
use crate::json::{lemma_entries_wf, lemma_items_wf, wf, Json};
use crate::merge::{dedup, merge_entries, merge_spec};
use crate::pointer::{merge_at, merge_in_spec, unescape};
use crate::env::{flatten_spec, key_path, set_path};
use crate::config::EnvSourceOptions;
use crate::text::{replace_spec, split_spec};
use crate::object::{
    get_or_null, holds_at_slot, lemma_absent, lemma_get_put, lemma_put_sorted, lemma_slot,
    lemma_sorted_slot, obj_get, obj_put, slot, sorted_keys, Entries,
};
use crate::order::{lemma_key_lt_asym, lemma_key_lt_irrefl};

verus! {

/// No two neighbouring elements are equal.
pub open spec fn no_adjacent_repeats(s: Seq<Json>) -> bool {
    forall|i: int| 0 < i < s.len() ==> #[trigger] s[i] != s[i - 1]
}

/// A sequence without equal neighbours is left as it is by `dedup`.
pub proof fn lemma_dedup_keeps(s: Seq<Json>)
    requires
        no_adjacent_repeats(s),
    ensures
        dedup(s) == s,
    decreases s.len(),
{
    if s.len() > 1 {
        let t = s.drop_last();
        assert forall|i: int| 0 < i < t.len() implies #[trigger] t[i] != t[i - 1] by {
            assert(s[i] != s[i - 1]);
        }
        lemma_dedup_keeps(t);
        assert(s[s.len() - 1] != s[s.len() - 2]);
        assert(t.push(s[s.len() - 1]) =~= s);
    }
}

/// Merging two arrays, each without equal neighbours, concatenates them and
/// collapses the two elements at the joint when they are equal; equal
/// elements elsewhere all stay.
pub proof fn law_merge_arrays(xa: Seq<Json>, xb: Seq<Json>)
    requires
        no_adjacent_repeats(xa),
        no_adjacent_repeats(xb),
    ensures
        merge_spec(Json::Array(xa), Json::Array(xb)) == Json::Array(
            if xa.len() > 0 && xb.len() > 0 && xa[xa.len() - 1] == xb[0] {
                xa + xb.drop_first()
            } else {
                xa + xb
            },
        ),
    decreases xb.len(),
{
    let s = xa + xb;
    if xb.len() == 0 {
        assert(s =~= xa);
        lemma_dedup_keeps(xa);
    } else if xb.len() == 1 {
        assert(s.drop_last() =~= xa);
        lemma_dedup_keeps(xa);
        if xa.len() > 0 && xa[xa.len() - 1] == xb[0] {
            assert(xa + xb.drop_first() =~= xa);
        } else {
            assert(xa.push(xb[0]) =~= s);
        }
    } else {
        let yb = xb.drop_last();
        assert forall|i: int| 0 < i < yb.len() implies #[trigger] yb[i] != yb[i - 1] by {
            assert(xb[i] != xb[i - 1]);
        }
        law_merge_arrays(xa, yb);
        assert(s.drop_last() =~= xa + yb);
        assert(xb[xb.len() - 1] != xb[xb.len() - 2]);
        assert(s[s.len() - 1] != s[s.len() - 2]);
        let last = xb[xb.len() - 1];
        if xa.len() > 0 && xa[xa.len() - 1] == xb[0] {
            assert((xa + yb.drop_first()).push(last) =~= xa + xb.drop_first());
        } else {
            assert((xa + yb).push(last) =~= xa + xb);
        }
    }
}

/// An incoming array replaces an object outright.
pub proof fn law_array_replaces_object(ea: Entries, xb: Seq<Json>)
    ensures
        merge_spec(Json::Object(ea), Json::Array(xb)) == Json::Array(xb),
{
}

proof fn lemma_merge_entries_prefix(ea: Entries, eb: Entries, n: int, k: Seq<char>)
    requires
        sorted_keys(eb),
        0 <= n <= eb.len(),
    ensures
        (forall|m: int| 0 <= m < n ==> #[trigger] eb[m].0 != k) ==> obj_get(
            merge_entries(ea, eb, n),
            k,
        ) == obj_get(ea, k),
        forall|m: int|
            0 <= m < n && #[trigger] eb[m].0 == k ==> obj_get(merge_entries(ea, eb, n), k) == Some(
                merge_spec(get_or_null(ea, k), eb[m].1),
            ),
    decreases n,
{
    if n > 0 {
        lemma_merge_entries_prefix(ea, eb, n - 1, k);
        let acc = merge_entries(ea, eb, n - 1);
        let kj = eb[n - 1].0;
        lemma_get_put(acc, kj, merge_spec(get_or_null(acc, kj), eb[n - 1].1), k);
        if kj == k {
            assert forall|m: int| 0 <= m < n - 1 implies #[trigger] eb[m].0 != k by {
                lemma_key_lt_asym(eb[m].0, kj);
                lemma_key_lt_irrefl(kj);
            }
        }
        assert forall|m: int| 0 <= m < n && #[trigger] eb[m].0 == k implies obj_get(
            merge_entries(ea, eb, n),
            k,
        ) == Some(merge_spec(get_or_null(ea, k), eb[m].1)) by {
            if m < n - 1 {
                lemma_key_lt_asym(eb[m].0, kj);
                lemma_key_lt_irrefl(kj);
            }
        }
    }
}

/// Merging two objects: a key that only the first holds keeps its value; a
/// key of the second holds the second's value merged onto the first's (or
/// onto `Null` where the first has none).
pub proof fn law_merge_objects(ea: Entries, eb: Entries, k: Seq<char>)
    requires
        sorted_keys(eb),
    ensures
        merge_spec(Json::Object(ea), Json::Object(eb)) == Json::Object(
            merge_entries(ea, eb, eb.len() as int),
        ),
        obj_get(merge_entries(ea, eb, eb.len() as int), k) == match obj_get(eb, k) {
            Some(v) => Some(merge_spec(get_or_null(ea, k), v)),
            None => obj_get(ea, k),
        },
{
    lemma_merge_entries_prefix(ea, eb, eb.len() as int, k);
    if exists|m: int| 0 <= m < eb.len() && #[trigger] eb[m].0 == k {
        let m = choose|m: int| 0 <= m < eb.len() && #[trigger] eb[m].0 == k;
        lemma_sorted_slot(eb, m);
    } else {
        lemma_absent(eb, k);
    }
}

/// Merging objects keeps the keys of the first in increasing order.
pub proof fn lemma_merge_entries_sorted(ea: Entries, eb: Entries, n: int)
    requires
        sorted_keys(ea),
    ensures
        sorted_keys(merge_entries(ea, eb, n)),
    decreases n,
{
    if n > 0 && n <= eb.len() {
        lemma_merge_entries_sorted(ea, eb, n - 1);
        let acc = merge_entries(ea, eb, n - 1);
        let kj = eb[n - 1].0;
        lemma_put_sorted(acc, kj, merge_spec(get_or_null(acc, kj), eb[n - 1].1));
    }
}

/// Every value of the entries is well formed.
pub open spec fn values_wf(es: Entries) -> bool {
    forall|i: int| 0 <= i < es.len() ==> #[trigger] wf(es[i].1)
}

/// Every element of `dedup(s)` is an element of `s`.
pub proof fn lemma_dedup_from(s: Seq<Json>)
    ensures
        forall|i: int| 0 <= i < dedup(s).len() ==> s.contains(#[trigger] dedup(s)[i]),
    decreases s.len(),
{
    if s.len() > 1 {
        let t = s.drop_last();
        lemma_dedup_from(t);
        assert(dedup(s) == if s[s.len() - 1] == s[s.len() - 2] {
            dedup(t)
        } else {
            dedup(t).push(s[s.len() - 1])
        });
        assert forall|i: int| 0 <= i < dedup(s).len() implies s.contains(
            #[trigger] dedup(s)[i],
        ) by {
            if i < dedup(t).len() {
                assert(t.contains(dedup(t)[i]));
                let j = choose|j: int| 0 <= j < t.len() && t[j] == dedup(t)[i];
                assert(s[j] == dedup(s)[i]);
            } else {
                assert(s[s.len() - 1] == dedup(s)[i]);
            }
        }
    } else {
        assert(dedup(s) == s);
        assert forall|i: int| 0 <= i < dedup(s).len() implies s.contains(
            #[trigger] dedup(s)[i],
        ) by {
            assert(s[i] == dedup(s)[i]);
        }
    }
}

proof fn lemma_dedup_wf(s: Seq<Json>)
    requires
        forall|i: int| 0 <= i < s.len() ==> #[trigger] wf(s[i]),
    ensures
        forall|i: int| 0 <= i < dedup(s).len() ==> #[trigger] wf(dedup(s)[i]),
{
    lemma_dedup_from(s);
    assert forall|i: int| 0 <= i < dedup(s).len() implies #[trigger] wf(dedup(s)[i]) by {
        assert(s.contains(dedup(s)[i]));
        let j = choose|j: int| 0 <= j < s.len() && s[j] == dedup(s)[i];
        assert(wf(s[j]));
    }
}

proof fn lemma_put_values_wf(es: Entries, k: Seq<char>, v: Json)
    requires
        values_wf(es),
        wf(v),
    ensures
        values_wf(obj_put(es, k, v)),
{
    lemma_slot(es, k);
    let n = obj_put(es, k, v);
    let s = slot(es, k);
    assert forall|i: int| 0 <= i < n.len() implies #[trigger] wf(n[i].1) by {
        if holds_at_slot(es, k) {
            if i != s {
                assert(n[i] == es[i]);
            }
        } else if i < s {
            assert(n[i] == es[i]);
        } else if i > s {
            assert(n[i] == es[i - 1]);
        }
    }
}

proof fn lemma_get_or_null_wf(es: Entries, k: Seq<char>)
    requires
        values_wf(es),
    ensures
        wf(get_or_null(es, k)),
{
    lemma_slot(es, k);
}

proof fn lemma_merge_entries_wf(ea: Entries, eb: Entries, n: int)
    requires
        values_wf(ea),
        values_wf(eb),
    ensures
        values_wf(merge_entries(ea, eb, n)),
    decreases eb, n,
{
    if n > 0 && n <= eb.len() {
        lemma_merge_entries_wf(ea, eb, n - 1);
        let acc = merge_entries(ea, eb, n - 1);
        let k = eb[n - 1].0;
        lemma_get_or_null_wf(acc, k);
        assert(wf(eb[n - 1].1));
        assert(decreases_to!(eb => eb[n - 1]));
        lemma_merge_wf(get_or_null(acc, k), eb[n - 1].1);
        lemma_put_values_wf(acc, k, merge_spec(get_or_null(acc, k), eb[n - 1].1));
    }
}

/// Merging two well-formed values gives a well-formed value: objects keep
/// their keys in increasing order at every depth.
pub proof fn lemma_merge_wf(a: Json, b: Json)
    requires
        wf(a),
        wf(b),
    ensures
        wf(merge_spec(a, b)),
    decreases b, 0int,
{
    match b {
        Json::Object(eb) => match a {
            Json::Object(ea) => {
                lemma_entries_wf(ea, ea.len() as int);
                lemma_entries_wf(eb, eb.len() as int);
                lemma_merge_entries_wf(ea, eb, eb.len() as int);
                lemma_merge_entries_sorted(ea, eb, eb.len() as int);
                let r = merge_entries(ea, eb, eb.len() as int);
                lemma_entries_wf(r, r.len() as int);
            },
            Json::Array(xa) => {
                lemma_items_wf(xa, xa.len() as int);
                let s = xa.push(b);
                assert forall|i: int| 0 <= i < s.len() implies #[trigger] wf(s[i]) by {
                    if i < xa.len() {
                        assert(s[i] == xa[i]);
                    }
                }
                lemma_dedup_wf(s);
                lemma_items_wf(dedup(s), dedup(s).len() as int);
            },
            _ => {},
        },
        Json::Array(xb) => match a {
            Json::Array(xa) => {
                lemma_items_wf(xa, xa.len() as int);
                lemma_items_wf(xb, xb.len() as int);
                let s = xa + xb;
                assert forall|i: int| 0 <= i < s.len() implies #[trigger] wf(s[i]) by {
                    if i < xa.len() {
                        assert(s[i] == xa[i]);
                    } else {
                        assert(s[i] == xb[i - xa.len()]);
                    }
                }
                lemma_dedup_wf(s);
                lemma_items_wf(dedup(s), dedup(s).len() as int);
            },
            _ => {},
        },
        _ => {},
    }
}

/// Merging in at the root path `/`, or at the empty path, is merging.
pub proof fn law_merge_in_root(root: Json, new: Json)
    ensures
        merge_in_spec(root, "/"@, new) == merge_spec(root, new),
        merge_in_spec(root, ""@, new) == merge_spec(root, new),
{
    reveal_strlit("/");
    reveal_strlit("");
    let slash = "/"@;
    assert(slash.drop_last() =~= Seq::<char>::empty());
    assert(split_spec(Seq::<char>::empty(), '/') == seq![Seq::<char>::empty()]);
    assert(split_spec(slash, '/') == seq![Seq::<char>::empty(), Seq::<char>::empty()]);
    assert(""@ =~= Seq::<char>::empty());
}

proof fn lemma_split_without_sep(s: Seq<char>, c: char)
    requires
        !s.contains(c),
    ensures
        split_spec(s, c) == seq![s],
    decreases s.len(),
{
    if s.len() > 0 {
        let t = s.drop_last();
        assert(!t.contains(c)) by {
            if t.contains(c) {
                let j = choose|j: int| 0 <= j < t.len() && t[j] == c;
                assert(s[j] == c);
            }
        }
        lemma_split_without_sep(t, c);
        assert(s[s.len() - 1] != c);
        assert(t.push(s[s.len() - 1]) =~= s);
        assert(seq![t].update(0, t.push(s[s.len() - 1])) =~= seq![s]);
    } else {
        assert(s =~= Seq::<char>::empty());
    }
}

proof fn lemma_split_after_sep(s: Seq<char>, c: char)
    ensures
        split_spec(seq![c] + s, c) == seq![Seq::<char>::empty()] + split_spec(s, c),
    decreases s.len(),
{
    let e = Seq::<char>::empty();
    let whole = seq![c] + s;
    if s.len() == 0 {
        assert(whole =~= seq![c]);
        assert(whole.drop_last() =~= e);
        assert(split_spec(e, c) == seq![e]);
        assert(whole.last() == c);
        assert(split_spec(whole, c) == split_spec(whole.drop_last(), c).push(e));
        assert(split_spec(whole, c) =~= seq![e, e]);
        assert(seq![e] + split_spec(s, c) =~= seq![e, e]);
    } else {
        lemma_split_after_sep(s.drop_last(), c);
        assert(whole.drop_last() =~= seq![c] + s.drop_last());
        crate::text::lemma_split_nonempty(s.drop_last(), c);
        let r = split_spec(s.drop_last(), c);
        if s.last() == c {
            assert((seq![e] + r).push(e) =~= seq![e] + r.push(e));
        } else {
            assert((seq![e] + r).update(r.len() as int, r.last().push(s.last())) =~= seq![e]
                + r.update(r.len() - 1, r.last().push(s.last())));
        }
    }
}

proof fn lemma_replace_untouched(s: Seq<char>, pat: Seq<char>, rep: Seq<char>)
    requires
        pat.len() > 0,
        !s.contains(pat[0]),
    ensures
        replace_spec(s, pat, rep) == s,
    decreases s.len(),
{
    if s.len() > 0 {
        let t = s.skip(1);
        assert(!t.contains(pat[0])) by {
            if t.contains(pat[0]) {
                let j = choose|j: int| 0 <= j < t.len() && t[j] == pat[0];
                assert(s[j + 1] == pat[0]);
            }
        }
        lemma_replace_untouched(t, pat, rep);
        if s.len() >= pat.len() {
            assert(s.take(pat.len() as int)[0] != pat[0]);
        }
        assert(seq![s[0]] + t =~= s);
    }
}

/// Merging in at `/k`, for a key `k` that the object holds and that holds
/// no `/` and no `~`, merges into the value under `k`.
pub proof fn law_merge_in_existing_key(es: Entries, k: Seq<char>, new: Json)
    requires
        k.len() > 0,
        !k.contains('/'),
        !k.contains('~'),
        obj_get(es, k) is Some,
    ensures
        merge_in_spec(Json::Object(es), seq!['/'] + k, new) == Json::Object(
            obj_put(es, k, merge_spec(get_or_null(es, k), new)),
        ),
{
    reveal_strlit("~1");
    reveal_strlit("~0");
    lemma_split_after_sep(k, '/');
    lemma_split_without_sep(k, '/');
    lemma_replace_untouched(k, "~1"@, "/"@);
    lemma_replace_untouched(k, "~0"@, "~"@);
    assert(unescape(k) == k);
    let fields = split_spec(seq!['/'] + k, '/');
    assert(fields =~= seq![Seq::<char>::empty(), k]);
    let child = get_or_null(es, k);
    assert(crate::pointer::merge_at(child, fields, 2, new) == merge_spec(child, new));
    assert(crate::pointer::merge_at(Json::Object(es), fields, 1, new) == Json::Object(
        obj_put(es, k, crate::pointer::merge_at(child, fields, 2, new)),
    ));
}

/// A well-formed object with `k` bound to a well-formed value stays well formed.
proof fn lemma_put_wf(es: Entries, k: Seq<char>, v: Json)
    requires
        wf(Json::Object(es)),
        wf(v),
    ensures
        wf(Json::Object(obj_put(es, k, v))),
{
    lemma_entries_wf(es, es.len() as int);
    lemma_put_sorted(es, k, v);
    lemma_put_values_wf(es, k, v);
    let n = obj_put(es, k, v);
    lemma_entries_wf(n, n.len() as int);
}

/// The value under any key of a well-formed object is well formed.
proof fn lemma_child_wf(es: Entries, k: Seq<char>)
    requires
        wf(Json::Object(es)),
    ensures
        wf(get_or_null(es, k)),
{
    lemma_entries_wf(es, es.len() as int);
    lemma_get_or_null_wf(es, k);
}

proof fn lemma_single_entry_wf(k: Seq<char>, v: Json)
    requires
        wf(v),
    ensures
        wf(Json::Object(seq![(k, v)])),
{
    lemma_entries_wf(seq![(k, v)], 1);
}

proof fn lemma_array_push_wf(xs: Seq<Json>, v: Json)
    requires
        wf(Json::Array(xs)),
        wf(v),
    ensures
        wf(Json::Array(xs.push(v))),
{
    lemma_items_wf(xs, xs.len() as int);
    let n = xs.push(v);
    assert forall|i: int| 0 <= i < n.len() implies #[trigger] wf(n[i]) by {
        if i < xs.len() {
            assert(n[i] == xs[i]);
        }
    }
    lemma_items_wf(n, n.len() as int);
}

/// Merging in at a path keeps well-formed values well formed.
pub proof fn lemma_merge_at_wf(node: Json, fields: Seq<Seq<char>>, i: int, new: Json)
    requires
        wf(node),
        wf(new),
    ensures
        wf(merge_at(node, fields, i, new)),
    decreases fields.len() - i,
{
    if i < 0 || i >= fields.len() || fields[i].len() == 0 {
        lemma_merge_wf(node, new);
    } else {
        let f = fields[i];
        lemma_merge_at_wf(Json::Null, fields, i + 1, new);
        let fresh = merge_at(Json::Null, fields, i + 1, new);
        match node {
            Json::Object(es) => {
                let key = unescape(f);
                lemma_child_wf(es, key);
                lemma_merge_at_wf(get_or_null(es, key), fields, i + 1, new);
                lemma_put_wf(es, key, merge_at(get_or_null(es, key), fields, i + 1, new));
                lemma_put_wf(es, key, fresh);
                lemma_items_wf(seq![fresh], 1);
            },
            Json::Array(xs) => {
                lemma_items_wf(xs, xs.len() as int);
                lemma_single_entry_wf(unescape(f), fresh);
                lemma_array_push_wf(xs, fresh);
                lemma_array_push_wf(xs, Json::Object(seq![(unescape(f), fresh)]));
                if let Some(p) = crate::text::index_text(f, xs.len()) {
                    let p = p as int;
                    lemma_merge_at_wf(xs[p], fields, i + 1, new);
                    let n = xs.update(p, merge_at(xs[p], fields, i + 1, new));
                    assert forall|j: int| 0 <= j < n.len() implies #[trigger] wf(n[j]) by {
                        if j != p {
                            assert(n[j] == xs[j]);
                        }
                    }
                    lemma_items_wf(n, n.len() as int);
                }
            },
            _ => {
                lemma_single_entry_wf(unescape(f), fresh);
                lemma_items_wf(seq![fresh], 1);
            },
        }
    }
}

/// Setting a leaf to a well-formed value keeps a well-formed document well
/// formed.
pub proof fn lemma_set_path_wf(doc: Json, path: Seq<Seq<char>>, i: int, v: Json)
    requires
        wf(doc),
        wf(v),
    ensures
        wf(set_path(doc, path, i, v)),
    decreases path.len() - i,
{
    if 0 <= i < path.len() {
        let es: Entries = match doc {
            Json::Object(es) => es,
            _ => Seq::empty(),
        };
        if !(doc is Object) {
            lemma_entries_wf(es, 0);
        }
        lemma_child_wf(es, path[i]);
        lemma_set_path_wf(get_or_null(es, path[i]), path, i + 1, v);
        lemma_put_wf(es, path[i], set_path(get_or_null(es, path[i]), path, i + 1, v));
    }
}

/// Flattening variables whose values are well formed gives a well-formed
/// document.
pub proof fn lemma_flatten_wf(vars: Seq<(Seq<char>, Json)>, o: EnvSourceOptions, n: int)
    requires
        forall|j: int| 0 <= j < vars.len() ==> #[trigger] wf(vars[j].1),
    ensures
        wf(flatten_spec(vars, o, n)),
    decreases n,
{
    if 0 < n <= vars.len() {
        lemma_flatten_wf(vars, o, n - 1);
        let acc = flatten_spec(vars, o, n - 1);
        if let Some(p) = key_path(vars[n - 1].0, o) {
            lemma_set_path_wf(acc, p, 0, vars[n - 1].1);
        }
    }
}

} // verus!
