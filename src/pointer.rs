use vstd::prelude::*;
use crate::json::{entries_view, items_view, lemma_array_view, lemma_object_view, Json, JsonValue};
use crate::merge::{merge_spec, merge_values};
use crate::object::{find_slot, get_or_null, holds_at_slot, lemma_slot, obj_get, obj_put};
use crate::text::{
    index_text, parse_index, parse_usize, replace_all, replace_spec, split_at_char, split_spec,
    strings_view, usize_text,
};
use crate::json::wf;
use crate::laws::lemma_merge_at_wf;

verus! {

broadcast use vstd::std_specs::vec::group_vec_axioms;

/// A path segment read as an object key: `~1` stands for `/` and `~0` for `~`.
pub open spec fn unescape(f: Seq<char>) -> Seq<char> {
    replace_spec(replace_spec(f, "~1"@, "/"@), "~0"@, "~"@)
}

/// Merges `new` at the place that segments `i..` of `fields` name below
/// `node`, creating the missing places on the way.
///
/// An empty segment, or the end of the path, merges at the current node.
/// An existing object key or array position is followed.  A missing place is
/// created: a segment that reads as a number makes an array element (appended
/// at the end, or a one-element array in place of a non-array), any other
/// segment makes an object entry under its unescaped key (appended to an
/// array as a one-entry object).  An element appended to an array this way is
/// not collapsed with an equal neighbour: with the collapse, a missing place
/// could stay missing and the path would never be reached.
pub open spec fn merge_at(node: Json, fields: Seq<Seq<char>>, i: int, new: Json) -> Json
    decreases fields.len() - i,
{
    if i < 0 || i >= fields.len() || fields[i].len() == 0 {
        merge_spec(node, new)
    } else {
        let f = fields[i];
        match node {
            Json::Object(es) => {
                let key = unescape(f);
                if obj_get(es, key) is Some {
                    Json::Object(
                        obj_put(es, key, merge_at(get_or_null(es, key), fields, i + 1, new)),
                    )
                } else if usize_text(f) is Some {
                    Json::Array(seq![merge_at(Json::Null, fields, i + 1, new)])
                } else {
                    Json::Object(obj_put(es, unescape(f), merge_at(Json::Null, fields, i + 1, new)))
                }
            },
            Json::Array(xs) => match index_text(f, xs.len()) {
                Some(p) => Json::Array(
                    xs.update(p as int, merge_at(xs[p as int], fields, i + 1, new)),
                ),
                None => if usize_text(f) is Some {
                    Json::Array(xs.push(merge_at(Json::Null, fields, i + 1, new)))
                } else {
                    Json::Array(
                        xs.push(
                            Json::Object(seq![(unescape(f), merge_at(Json::Null, fields, i + 1, new))]),
                        ),
                    )
                },
            },
            _ => if usize_text(f) is Some {
                Json::Array(seq![merge_at(Json::Null, fields, i + 1, new)])
            } else {
                Json::Object(seq![(unescape(f), merge_at(Json::Null, fields, i + 1, new))])
            },
        }
    }
}

/// The result of merging `new` at the slash-separated `pointer` inside `root`;
/// the text before the first slash is not part of the path.
pub open spec fn merge_in_spec(root: Json, pointer: Seq<char>, new: Json) -> Json {
    merge_at(root, split_spec(pointer, '/'), 1, new)
}

/// Binds key `k` to `v` in the entries.
pub fn put_entry(es: &mut Vec<(String, JsonValue)>, k: String, v: JsonValue)
    ensures
        entries_view(final(es)@) == obj_put(entries_view(old(es)@), k@, v@),
{
    let ghost ev = entries_view(es@);
    let p = find_slot(es, &k);
    proof {
        lemma_slot(ev, k@);
    }
    if p < es.len() && es[p].0 == k {
        es.remove(p);
        es.insert(p, (k, v));
        assert(entries_view(es@) =~= ev.update(p as int, (k@, v@)));
    } else {
        es.insert(p, (k, v));
        assert(!holds_at_slot(ev, k@));
        assert(entries_view(es@) =~= ev.insert(p as int, (k@, v@)));
    }
}

fn unescape_segment(f: &String) -> (r: String)
    ensures
        r@ == unescape(f@),
{
    let a = replace_all(f.as_str(), "~1", "/");
    replace_all(a.as_str(), "~0", "~")
}

/// Merges `new` at segments `i..` of `fields` below `node`.
pub fn merge_at_path(node: JsonValue, fields: &Vec<String>, i: usize, new: JsonValue) -> (r:
    JsonValue)
    requires
        i <= fields.len(),
    ensures
        r@ == merge_at(node@, strings_view(fields@), i as int, new@),
    decreases fields.len() - i,
{
    let ghost fv = strings_view(fields@);
    if i >= fields.len() || fields[i].as_str().unicode_len() == 0 {
        return merge_values(node, new);
    }
    let f = &fields[i];
    assert(fv[i as int] == f@);
    let numeric = parse_usize(f.as_str()).is_some();
    let key = unescape_segment(f);
    match node {
        JsonValue::Object(es) => {
            proof {
                lemma_object_view(es);
            }
            let ghost ev = entries_view(es@);
            let p = find_slot(&es, &key);
            proof {
                lemma_slot(ev, key@);
            }
            let mut es = es;
            if p < es.len() && es[p].0 == key {
                let (kk, child) = es.remove(p);
                let merged = merge_at_path(child, fields, i + 1, new);
                es.insert(p, (kk, merged));
                proof {
                    assert(entries_view(es@) =~= ev.update(p as int, (key@, merged@)));
                    lemma_object_view(es);
                }
                JsonValue::Object(es)
            } else if numeric {
                let v = merge_at_path(JsonValue::Null, fields, i + 1, new);
                let ghost vv = v@;
                let out = vec![v];
                proof {
                    lemma_array_view(out);
                    assert(items_view(out@) =~= seq![vv]);
                }
                JsonValue::Array(out)
            } else {
                let v = merge_at_path(JsonValue::Null, fields, i + 1, new);
                put_entry(&mut es, key, v);
                proof {
                    lemma_object_view(es);
                }
                JsonValue::Object(es)
            }
        },
        JsonValue::Array(xs) => {
            proof {
                lemma_array_view(xs);
            }
            let ghost xv = items_view(xs@);
            let mut xs = xs;
            match parse_index(f.as_str(), xs.len()) {
                Some(p) => {
                    let child = xs.remove(p);
                    let merged = merge_at_path(child, fields, i + 1, new);
                    xs.insert(p, merged);
                    proof {
                        assert(items_view(xs@) =~= xv.update(p as int, merged@));
                        lemma_array_view(xs);
                    }
                    JsonValue::Array(xs)
                },
                None => {
                    let v = merge_at_path(JsonValue::Null, fields, i + 1, new);
                    if numeric {
                        xs.push(v);
                    } else {
                        let ghost vv = v@;
                        let entry = vec![(key, v)];
                        proof {
                            lemma_object_view(entry);
                            assert(entries_view(entry@) =~= seq![(unescape(f@), vv)]);
                        }
                        xs.push(JsonValue::Object(entry));
                    }
                    proof {
                        lemma_array_view(xs);
                        assert(items_view(xs@) =~= xv.push(xs@.last()@));
                    }
                    JsonValue::Array(xs)
                },
            }
        },
        _ => {
            let v = merge_at_path(JsonValue::Null, fields, i + 1, new);
            let ghost vv = v@;
            if numeric {
                let out = vec![v];
                proof {
                    lemma_array_view(out);
                    assert(items_view(out@) =~= seq![vv]);
                }
                JsonValue::Array(out)
            } else {
                let entry = vec![(key, v)];
                proof {
                    lemma_object_view(entry);
                    assert(entries_view(entry@) =~= seq![(unescape(f@), vv)]);
                }
                JsonValue::Object(entry)
            }
        },
    }
}

impl JsonValue {
    /// Merges `incoming` at the place that the slash-separated `pointer` names,
    /// creating the missing places on the way (see `merge_at`).
    pub fn merge_in(&mut self, pointer: &str, incoming: JsonValue)
        ensures
            final(self)@ == merge_in_spec(old(self)@, pointer@, incoming@),
            wf(old(self)@) && wf(incoming@) ==> wf(final(self)@),
    {
        proof {
            if wf(self@) && wf(incoming@) {
                lemma_merge_at_wf(self@, split_spec(pointer@, '/'), 1, incoming@);
            }
        }
        let fields = split_at_char(pointer, '/');
        let mut current = JsonValue::Null;
        std::mem::swap(&mut current, self);
        if fields.len() == 0 {
            *self = merge_values(current, incoming);
            return;
        }
        *self = merge_at_path(current, &fields, 1, incoming);
    }
}

} // verus!
