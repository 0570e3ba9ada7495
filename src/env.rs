use vstd::prelude::*;
use vstd::string::StrSliceExecFns;
use crate::config::{
    case_converted, case_in_force, convert_key_case, prefix_in_force, separator_in_force,
    EnvSourceOptions, KeyCase,
};
use crate::json::{entries_view, lemma_object_view, Json, JsonValue};
use crate::object::{find_slot, get_or_null, holds_at_slot, lemma_slot, obj_put, Entries};
use crate::text::{strings_view, strip_prefix, strip_prefix_spec};
use crate::json::wf;
use crate::laws::lemma_flatten_wf;

verus! {

broadcast use vstd::std_specs::vec::group_vec_axioms;

/// The pieces of `s` between the occurrences of `sep`, scanned from the
/// left; `cur` is the piece read so far.
pub open spec fn split_by_from(s: Seq<char>, sep: Seq<char>, cur: Seq<char>) -> Seq<Seq<char>>
    decreases s.len(),
{
    if sep.len() == 0 || s.len() == 0 {
        seq![cur + s]
    } else if s.len() >= sep.len() && s.take(sep.len() as int) == sep {
        seq![cur] + split_by_from(s.skip(sep.len() as int), sep, Seq::<char>::empty())
    } else {
        split_by_from(s.skip(1), sep, cur.push(s[0]))
    }
}

/// The pieces of `s` between the occurrences of `sep`.
pub open spec fn split_by(s: Seq<char>, sep: Seq<char>) -> Seq<Seq<char>> {
    split_by_from(s, sep, Seq::<char>::empty())
}

/// Each segment converted to `case`.
pub open spec fn cased_all(segs: Seq<Seq<char>>, case: KeyCase) -> Seq<Seq<char>> {
    Seq::new(segs.len(), |i: int| case_converted(segs[i], case))
}

/// The path that environment key `key` addresses, or `None` where the key
/// lacks the prefix: the rest of the key, cut at each separator, each piece
/// converted to the key case.
pub open spec fn key_path(key: Seq<char>, o: EnvSourceOptions) -> Option<Seq<Seq<char>>> {
    match strip_prefix_spec(key, prefix_in_force(o)) {
        Some(rest) => Some(cased_all(split_by(rest, separator_in_force(o)), case_in_force(o))),
        None => None,
    }
}

/// `doc` with the leaf at `path[i..]` set to `v`; each level on the way is
/// an object, made afresh where the level was missing or not an object.
pub open spec fn set_path(doc: Json, path: Seq<Seq<char>>, i: int, v: Json) -> Json
    decreases path.len() - i,
{
    if i < 0 || i >= path.len() {
        v
    } else {
        let es: Entries = match doc {
            Json::Object(es) => es,
            _ => Seq::empty(),
        };
        Json::Object(obj_put(es, path[i], set_path(get_or_null(es, path[i]), path, i + 1, v)))
    }
}

/// The document that the first `n` (path, value) entries build, starting
/// from `Null`, each setting its leaf in turn.
pub open spec fn build_spec(entries: Seq<(Seq<Seq<char>>, Json)>, n: int) -> Json
    decreases n,
{
    if n <= 0 || n > entries.len() {
        Json::Null
    } else {
        set_path(build_spec(entries, n - 1), entries[n - 1].0, 0, entries[n - 1].1)
    }
}

/// The document that the first `n` variables build: each variable whose key
/// has the prefix sets the leaf at its path.
pub open spec fn flatten_spec(vars: Seq<(Seq<char>, Json)>, o: EnvSourceOptions, n: int) -> Json
    decreases n,
{
    if n <= 0 || n > vars.len() {
        Json::Null
    } else {
        let acc = flatten_spec(vars, o, n - 1);
        match key_path(vars[n - 1].0, o) {
            Some(p) => set_path(acc, p, 0, vars[n - 1].1),
            None => acc,
        }
    }
}

/// Splits `s` at every occurrence of `sep`.
pub fn split_by_str(s: &str, sep: &str) -> (r: Vec<String>)
    ensures
        strings_view(r@) == split_by(s@, sep@),
{
    let n = s.unicode_len();
    let m = sep.unicode_len();
    let sep_owned = sep.to_owned();
    let mut out: Vec<String> = Vec::new();
    if m == 0 || n == 0 {
        let whole = s.to_owned();
        out.push(whole);
        assert(strings_view(out@) =~= seq![Seq::<char>::empty() + s@]);
        return out;
    }
    let mut start: usize = 0;
    let mut i: usize = 0;
    assert(s@.skip(0) =~= s@);
    assert(s@.subrange(0, 0) =~= Seq::<char>::empty());
    assert(strings_view(out@) =~= Seq::<Seq<char>>::empty());
    assert(strings_view(out@) + split_by(s@, sep@) =~= split_by(s@, sep@));
    while i < n
        invariant
            n == s@.len(),
            m == sep@.len(),
            m > 0,
            sep_owned@ == sep@,
            start <= i <= n,
            strings_view(out@) + split_by_from(
                s@.skip(i as int),
                sep@,
                s@.subrange(start as int, i as int),
            ) == split_by(s@, sep@),
        decreases n - i,
    {
        let ghost t = s@.skip(i as int);
        let ghost cur = s@.subrange(start as int, i as int);
        let ghost before = strings_view(out@);
        if m <= n - i && s.substring_char(i, i + m).to_owned() == sep_owned {
            let piece = s.substring_char(start, i).to_owned();
            out.push(piece);
            proof {
                assert(t.take(m as int) =~= s@.subrange(i as int, i + m));
                assert(t.skip(m as int) =~= s@.skip(i + m));
                assert(strings_view(out@) =~= before.push(cur));
                assert(s@.subrange(i + m, i + m) =~= Seq::<char>::empty());
                assert(before + (seq![cur] + split_by_from(
                    s@.skip(i + m),
                    sep@,
                    Seq::<char>::empty(),
                )) =~= before.push(cur) + split_by_from(
                    s@.skip(i + m),
                    sep@,
                    Seq::<char>::empty(),
                ));
            }
            i = i + m;
            start = i;
        } else {
            proof {
                assert(m <= n - i ==> t.take(m as int) =~= s@.subrange(i as int, i + m));
                assert(t.skip(1) =~= s@.skip(i + 1));
                assert(cur.push(t[0]) =~= s@.subrange(start as int, i + 1));
            }
            i = i + 1;
        }
    }
    let last = s.substring_char(start, n).to_owned();
    let ghost before = strings_view(out@);
    out.push(last);
    proof {
        assert(s@.skip(n as int) =~= Seq::<char>::empty());
        assert(last@ + Seq::<char>::empty() =~= last@);
        assert(strings_view(out@) =~= before + seq![last@]);
    }
    out
}

/// Converts each segment to `case`.
pub fn case_segments(segs: &Vec<String>, case: KeyCase) -> (r: Vec<String>)
    ensures
        strings_view(r@) == cased_all(strings_view(segs@), case),
{
    let mut out: Vec<String> = Vec::new();
    let mut i: usize = 0;
    while i < segs.len()
        invariant
            i <= segs.len(),
            out@.len() == i,
            forall|j: int| 0 <= j < i ==> #[trigger] out@[j]@ == case_converted(segs@[j]@, case),
        decreases segs.len() - i,
    {
        out.push(convert_key_case(segs[i].as_str(), case));
        i = i + 1;
    }
    assert(strings_view(out@) =~= cased_all(strings_view(segs@), case));
    out
}

/// The path that environment key `key` addresses under the options, or
/// `None` where the key lacks the prefix.
pub fn env_key_path(key: &str, options: &EnvSourceOptions) -> (r: Option<Vec<String>>)
    ensures
        r matches Some(p) ==> key_path(key@, *options) == Some(strings_view(p@)),
        r is None ==> key_path(key@, *options) is None,
{
    let default_prefix = "NORTH_";
    let default_sep = "__";
    proof {
        reveal_strlit("NORTH_");
        reveal_strlit("__");
    }
    let prefix: &str = match &options.prefix {
        Some(p) => p.as_str(),
        None => default_prefix,
    };
    let sep: &str = match &options.nested_separator {
        Some(s) => s.as_str(),
        None => default_sep,
    };
    let case = match options.key_case {
        Some(c) => c,
        None => KeyCase::Snake,
    };
    match strip_prefix(key, prefix) {
        None => None,
        Some(rest) => {
            let segs = split_by_str(rest.as_str(), sep);
            Some(case_segments(&segs, case))
        },
    }
}

/// Sets the leaf at `path[i..]` below `doc` to `v` (see `set_path`).
pub fn insert_at_path(doc: JsonValue, path: &Vec<String>, i: usize, v: JsonValue) -> (r: JsonValue)
    requires
        i <= path.len(),
    ensures
        r@ == set_path(doc@, strings_view(path@), i as int, v@),
    decreases path.len() - i,
{
    let ghost pv = strings_view(path@);
    if i >= path.len() {
        return v;
    }
    let key = &path[i];
    assert(pv[i as int] == key@);
    let mut es: Vec<(String, JsonValue)> = match doc {
        JsonValue::Object(es) => {
            proof {
                lemma_object_view(es);
            }
            es
        },
        _ => Vec::new(),
    };
    let ghost ev = entries_view(es@);
    assert(ev == match doc@ {
        Json::Object(e) => e,
        _ => Seq::<(Seq<char>, Json)>::empty(),
    }) by {
        crate::json::lemma_view_variant(doc);
        if !(doc is Object) {
            assert(ev =~= Seq::<(Seq<char>, Json)>::empty());
        }
    }
    let p = find_slot(&es, key);
    proof {
        lemma_slot(ev, key@);
    }
    if p < es.len() && es[p].0 == *key {
        let (kk, child) = es.remove(p);
        let merged = insert_at_path(child, path, i + 1, v);
        es.insert(p, (kk, merged));
        proof {
            assert(entries_view(es@) =~= ev.update(p as int, (key@, merged@)));
        }
    } else {
        let merged = insert_at_path(JsonValue::Null, path, i + 1, v);
        es.insert(p, (key.clone(), merged));
        proof {
            assert(!holds_at_slot(ev, key@));
            assert(entries_view(es@) =~= ev.insert(p as int, (key@, merged@)));
        }
    }
    proof {
        lemma_object_view(es);
    }
    JsonValue::Object(es)
}

/// The views of (path, value) entries.
pub open spec fn path_entries_view(es: Seq<(Vec<String>, JsonValue)>) -> Seq<
    (Seq<Seq<char>>, Json),
> {
    Seq::new(es.len(), |i: int| (strings_view(es[i].0@), es[i].1@))
}

/// Builds a document from (path, value) entries, each setting its leaf in turn.
pub fn build_document(entries: Vec<(Vec<String>, JsonValue)>) -> (r: JsonValue)
    ensures
        r@ == build_spec(path_entries_view(entries@), entries@.len() as int),
{
    let ghost ev = path_entries_view(entries@);
    let ghost e0 = entries@;
    let n = entries.len();
    let mut rest = entries;
    let mut doc = JsonValue::Null;
    let mut i: usize = 0;
    while i < n
        invariant
            n == e0.len(),
            ev == path_entries_view(e0),
            i <= n,
            rest@ == e0.skip(i as int),
            doc@ == build_spec(ev, i as int),
        decreases n - i,
    {
        let (path, v) = rest.remove(0);
        proof {
            assert(e0[i as int] == (path, v));
            assert(rest@ =~= e0.skip(i as int + 1));
        }
        doc = insert_at_path(doc, &path, 0, v);
        i = i + 1;
    }
    doc
}

/// The views of (key, value) variables.
pub open spec fn vars_view(vs: Seq<(String, JsonValue)>) -> Seq<(Seq<char>, Json)> {
    Seq::new(vs.len(), |i: int| (vs[i].0@, vs[i].1@))
}

/// Turns environment variables, whose values are already read, into one
/// document: each variable whose key starts with the prefix sets the leaf
/// at its path.  Without such a variable the document is `Null`.
pub fn process_env_values(vars: Vec<(String, JsonValue)>, options: &EnvSourceOptions) -> (r:
    JsonValue)
    ensures
        r@ == flatten_spec(vars_view(vars@), *options, vars@.len() as int),
        (forall|j: int| 0 <= j < vars@.len() ==> #[trigger] wf(vars@[j].1@)) ==> wf(r@),
{
    proof {
        if forall|j: int| 0 <= j < vars@.len() ==> #[trigger] wf(vars@[j].1@) {
            let vv = vars_view(vars@);
            assert forall|j: int| 0 <= j < vv.len() implies #[trigger] wf(vv[j].1) by {
                assert(wf(vars@[j].1@));
            }
            lemma_flatten_wf(vv, *options, vars@.len() as int);
        }
    }
    let ghost vv = vars_view(vars@);
    let ghost v0 = vars@;
    let n = vars.len();
    let mut rest = vars;
    let mut doc = JsonValue::Null;
    let mut i: usize = 0;
    while i < n
        invariant
            n == v0.len(),
            vv == vars_view(v0),
            i <= n,
            rest@ == v0.skip(i as int),
            doc@ == flatten_spec(vv, *options, i as int),
        decreases n - i,
    {
        let (key, v) = rest.remove(0);
        proof {
            assert(v0[i as int] == (key, v));
            assert(rest@ =~= v0.skip(i as int + 1));
        }
        match env_key_path(key.as_str(), options) {
            Some(path) => {
                doc = insert_at_path(doc, &path, 0, v);
            },
            None => {},
        }
        i = i + 1;
    }
    doc
}

/// The views of (key, text) variables, the text kept as a string value.
pub open spec fn raw_vars_view(vs: Seq<(String, String)>) -> Seq<(Seq<char>, Json)> {
    Seq::new(vs.len(), |i: int| (vs[i].0@, Json::Str(vs[i].1@)))
}

/// Turns environment variables into one document, keeping each value as a
/// string (see `process_env_values`).
pub fn process_envs(vars: &Vec<(String, String)>, options: &EnvSourceOptions) -> (r: JsonValue)
    ensures
        r@ == flatten_spec(raw_vars_view(vars@), *options, vars@.len() as int),
        wf(r@),
{
    proof {
        let rv = raw_vars_view(vars@);
        assert forall|j: int| 0 <= j < rv.len() implies #[trigger] wf(rv[j].1) by {}
        lemma_flatten_wf(rv, *options, vars@.len() as int);
    }
    let mut values: Vec<(String, JsonValue)> = Vec::new();
    let mut i: usize = 0;
    while i < vars.len()
        invariant
            i <= vars.len(),
            vars_view(values@) == raw_vars_view(vars@).take(i as int),
        decreases vars.len() - i,
    {
        let ghost before = vars_view(values@);
        values.push((vars[i].0.clone(), JsonValue::String(vars[i].1.clone())));
        proof {
            assert(vars_view(values@) =~= before.push((vars@[i as int].0@, Json::Str(vars@[i as int].1@))));
            assert(raw_vars_view(vars@).take(i as int + 1) =~= raw_vars_view(vars@).take(i as int).push(
                raw_vars_view(vars@)[i as int],
            ));
        }
        i = i + 1;
    }
    proof {
        assert(raw_vars_view(vars@).take(vars@.len() as int) =~= raw_vars_view(vars@));
    }
    process_env_values(values, options)
}

} // verus!
