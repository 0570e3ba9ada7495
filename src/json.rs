use vstd::prelude::*;
use vstd::string::StrSliceExecFns;

verus! {

broadcast use vstd::std_specs::vec::group_vec_axioms;

/// The mathematical value of a configuration document.
///
/// Objects are sequences of (key, value) entries.  A well-formed object keeps
/// its keys strictly increasing (see `wf`), so two well-formed objects are
/// equal exactly when they map the same keys to the same values.
pub enum Json {
    Null,
    Bool(bool),
    Number(Seq<char>),
    Str(Seq<char>),
    Array(Seq<Json>),
    Object(Seq<(Seq<char>, Json)>),
}

/// A semi-structured configuration value.
///
/// Numbers are kept as their decimal text, exactly as a parser printed them.
#[derive(Debug)]
pub enum JsonValue {
    Null,
    Bool(bool),
    Number(String),
    String(String),
    Array(Vec<JsonValue>),
    Object(Vec<(String, JsonValue)>),
}

/// The model of a value, by structure.
pub open spec fn json_of(v: JsonValue) -> Json
    decreases v,
{
    match v {
        JsonValue::Null => Json::Null,
        JsonValue::Bool(b) => Json::Bool(b),
        JsonValue::Number(n) => Json::Number(n@),
        JsonValue::String(s) => Json::Str(s@),
        JsonValue::Array(xs) => Json::Array(
            Seq::new(
                xs.len() as nat,
                |i: int|
                    if 0 <= i < xs.len() {
                        json_of(xs[i])
                    } else {
                        Json::Null
                    },
            ),
        ),
        JsonValue::Object(es) => Json::Object(
            Seq::new(
                es.len() as nat,
                |i: int|
                    if 0 <= i < es.len() {
                        (es[i].0@, json_of(es[i].1))
                    } else {
                        (Seq::empty(), Json::Null)
                    },
            ),
        ),
    }
}

impl View for JsonValue {
    type V = Json;

    open spec fn view(&self) -> Json {
        json_of(*self)
    }
}

/// The model of a sequence of values.
pub open spec fn items_view(xs: Seq<JsonValue>) -> Seq<Json> {
    Seq::new(xs.len(), |i: int| xs[i]@)
}

/// The model of a sequence of object entries.
pub open spec fn entries_view(es: Seq<(String, JsonValue)>) -> Seq<(Seq<char>, Json)> {
    Seq::new(es.len(), |i: int| (es[i].0@, es[i].1@))
}

pub proof fn lemma_array_view(xs: Vec<JsonValue>)
    ensures
        JsonValue::Array(xs)@ == Json::Array(items_view(xs@)),
{
    let v = JsonValue::Array(xs)@;
    assert(v is Array);
    assert(v->Array_0 =~= items_view(xs@));
}

pub proof fn lemma_object_view(es: Vec<(String, JsonValue)>)
    ensures
        JsonValue::Object(es)@ == Json::Object(entries_view(es@)),
{
    let v = JsonValue::Object(es)@;
    assert(v->Object_0 =~= entries_view(es@));
}

/// Strict lexicographic order on keys, by character code, comparing from
/// position `i` on.
pub open spec fn key_lt_from(a: Seq<char>, b: Seq<char>, i: int) -> bool
    decreases a.len() - i,
{
    if i < 0 || i >= a.len() {
        i >= 0 && i < b.len()
    } else if i >= b.len() {
        false
    } else if a[i] == b[i] {
        key_lt_from(a, b, i + 1)
    } else {
        a[i] < b[i]
    }
}

/// Strict lexicographic order on keys.
pub open spec fn key_lt(a: Seq<char>, b: Seq<char>) -> bool {
    key_lt_from(a, b, 0)
}

/// Objects whose keys strictly increase, at every depth.
pub open spec fn wf(j: Json) -> bool
    decreases j, 0int,
{
    match j {
        Json::Array(xs) => items_wf(xs, xs.len() as int),
        Json::Object(es) => {
            &&& forall|i: int, k: int|
                0 <= i < k < es.len() ==> key_lt(#[trigger] es[i].0, #[trigger] es[k].0)
            &&& entries_wf(es, es.len() as int)
        },
        _ => true,
    }
}

/// The first `n` items are well formed.
pub open spec fn items_wf(xs: Seq<Json>, n: int) -> bool
    decreases xs, n,
{
    if n <= 0 {
        true
    } else if n > xs.len() {
        false
    } else {
        items_wf(xs, n - 1) && wf(xs[n - 1])
    }
}

/// The values of the first `n` entries are well formed.
pub open spec fn entries_wf(es: Seq<(Seq<char>, Json)>, n: int) -> bool
    decreases es, n,
{
    if n <= 0 {
        true
    } else if n > es.len() {
        false
    } else {
        entries_wf(es, n - 1) && wf(es[n - 1].1)
    }
}

/// `items_wf` says that each item is well formed.
pub proof fn lemma_items_wf(xs: Seq<Json>, n: int)
    requires
        0 <= n <= xs.len(),
    ensures
        items_wf(xs, n) <==> forall|i: int| 0 <= i < n ==> #[trigger] wf(xs[i]),
    decreases n,
{
    if n > 0 {
        lemma_items_wf(xs, n - 1);
        assert(items_wf(xs, n) == (items_wf(xs, n - 1) && wf(xs[n - 1])));
    }
}

/// `entries_wf` says that each value is well formed.
pub proof fn lemma_entries_wf(es: Seq<(Seq<char>, Json)>, n: int)
    requires
        0 <= n <= es.len(),
    ensures
        entries_wf(es, n) <==> forall|i: int| 0 <= i < n ==> #[trigger] wf(es[i].1),
    decreases n,
{
    if n > 0 {
        lemma_entries_wf(es, n - 1);
        assert(entries_wf(es, n) == (entries_wf(es, n - 1) && wf(es[n - 1].1)));
    }
}

impl JsonValue {
    /// A copy of the value.
    pub fn deep_clone(&self) -> (r: JsonValue)
        ensures
            r@ == self@,
        decreases self,
    {
        match self {
            JsonValue::Null => JsonValue::Null,
            JsonValue::Bool(b) => JsonValue::Bool(*b),
            JsonValue::Number(n) => JsonValue::Number(n.clone()),
            JsonValue::String(s) => JsonValue::String(s.clone()),
            JsonValue::Array(xs) => {
                let mut out: Vec<JsonValue> = Vec::new();
                let mut i: usize = 0;
                while i < xs.len()
                    invariant
                        *self == JsonValue::Array(*xs),
                        i <= xs.len(),
                        out@.len() == i,
                        forall|j: int| 0 <= j < i ==> #[trigger] out@[j]@ == xs@[j]@,
                    decreases xs.len() - i,
                {
                    assert(decreases_to!(*self => self->Array_0));
                    assert(decreases_to!(*xs => xs@));
                    assert(decreases_to!(xs@ => xs@[i as int]));
                    assert(decreases_to!(*self => xs@[i as int]));
                    out.push(xs[i].deep_clone());
                    i = i + 1;
                }
                proof {
                    lemma_array_view(out);
                    lemma_array_view(*xs);
                    assert(items_view(out@) =~= items_view(xs@));
                }
                JsonValue::Array(out)
            },
            JsonValue::Object(es) => {
                let mut out: Vec<(String, JsonValue)> = Vec::new();
                let mut i: usize = 0;
                while i < es.len()
                    invariant
                        *self == JsonValue::Object(*es),
                        i <= es.len(),
                        out@.len() == i,
                        forall|j: int|
                            0 <= j < i ==> #[trigger] out@[j].0@ == es@[j].0@ && out@[j].1@
                                == es@[j].1@,
                    decreases es.len() - i,
                {
                    assert(decreases_to!(*self => self->Object_0));
                    assert(decreases_to!(*es => es@));
                    assert(decreases_to!(es@ => es@[i as int]));
                    assert(decreases_to!(*self => es@[i as int].1));
                    let v = es[i].1.deep_clone();
                    out.push((es[i].0.clone(), v));
                    i = i + 1;
                }
                proof {
                    lemma_object_view(out);
                    lemma_object_view(*es);
                    assert(entries_view(out@) =~= entries_view(es@));
                }
                JsonValue::Object(out)
            },
        }
    }

    /// Structural equality of the two values.
    pub fn same_as(&self, other: &JsonValue) -> (r: bool)
        ensures
            r == (self@ == other@),
        decreases self,
    {
        match (self, other) {
            (JsonValue::Null, JsonValue::Null) => true,
            (JsonValue::Bool(a), JsonValue::Bool(b)) => *a == *b,
            (JsonValue::Number(a), JsonValue::Number(b)) => {
                *a == *b
            },
            (JsonValue::String(a), JsonValue::String(b)) => {
                *a == *b
            },
            (JsonValue::Array(xa), JsonValue::Array(xb)) => {
                proof {
                    lemma_array_view(*xa);
                    lemma_array_view(*xb);
                }
                if xa.len() != xb.len() {
                    assert(items_view(xa@).len() != items_view(xb@).len());
                    return false;
                }
                let mut i: usize = 0;
                while i < xa.len()
                    invariant
                        *self == JsonValue::Array(*xa),
                        *other == JsonValue::Array(*xb),
                        self@ == Json::Array(items_view(xa@)),
                        other@ == Json::Array(items_view(xb@)),
                        i <= xa.len(),
                        xa.len() == xb.len(),
                        forall|j: int| 0 <= j < i ==> #[trigger] xa@[j]@ == xb@[j]@,
                    decreases xa.len() - i,
                {
                    assert(decreases_to!(*self => *xa));
                    assert(decreases_to!(*xa => xa@));
                    assert(decreases_to!(xa@ => xa@[i as int]));
                    assert(decreases_to!(*self => xa@[i as int]));
                    if !xa[i].same_as(&xb[i]) {
                        assert(items_view(xa@)[i as int] != items_view(xb@)[i as int]);
                        return false;
                    }
                    i = i + 1;
                }
                assert(items_view(xa@) =~= items_view(xb@));
                true
            },
            (JsonValue::Object(ea), JsonValue::Object(eb)) => {
                proof {
                    lemma_object_view(*ea);
                    lemma_object_view(*eb);
                }
                if ea.len() != eb.len() {
                    assert(entries_view(ea@).len() != entries_view(eb@).len());
                    return false;
                }
                let mut i: usize = 0;
                while i < ea.len()
                    invariant
                        *self == JsonValue::Object(*ea),
                        *other == JsonValue::Object(*eb),
                        self@ == Json::Object(entries_view(ea@)),
                        other@ == Json::Object(entries_view(eb@)),
                        i <= ea.len(),
                        ea.len() == eb.len(),
                        forall|j: int|
                            0 <= j < i ==> #[trigger] entries_view(ea@)[j] == entries_view(
                                eb@,
                            )[j],
                    decreases ea.len() - i,
                {
                    assert(decreases_to!(*self => *ea));
                    assert(decreases_to!(*ea => ea@));
                    assert(decreases_to!(ea@ => ea@[i as int]));
                    assert(decreases_to!(*self => ea@[i as int].1));
                    if !(ea[i].0 == eb[i].0) {
                        assert(entries_view(ea@)[i as int] != entries_view(eb@)[i as int]);
                        return false;
                    }
                    if !ea[i].1.same_as(&eb[i].1) {
                        assert(entries_view(ea@)[i as int] != entries_view(eb@)[i as int]);
                        return false;
                    }
                    assert(entries_view(ea@)[i as int] == entries_view(eb@)[i as int]);
                    i = i + 1;
                }
                assert(entries_view(ea@) =~= entries_view(eb@));
                true
            },
            _ => {
                proof {
                    lemma_view_variant(*self);
                    lemma_view_variant(*other);
                }
                false
            },
        }
    }
}

/// A value and its model have the same variant.
pub proof fn lemma_view_variant(v: JsonValue)
    ensures
        (v is Null) == (v@ is Null),
        (v is Bool) == (v@ is Bool),
        (v is Number) == (v@ is Number),
        (v is String) == (v@ is Str),
        (v is Array) == (v@ is Array),
        (v is Object) == (v@ is Object),
{
}

/// Compares two keys in the order of `key_lt`.
pub fn key_less(a: &String, b: &String) -> (r: bool)
    ensures
        r == key_lt(a@, b@),
{
    let sa = a.as_str();
    let sb = b.as_str();
    let la = sa.unicode_len();
    let lb = sb.unicode_len();
    let mut i: usize = 0;
    while i < la && i < lb
        invariant
            la == a@.len(),
            lb == b@.len(),
            sa@ == a@,
            sb@ == b@,
            i <= la,
            i <= lb,
            key_lt_from(a@, b@, 0) == key_lt_from(a@, b@, i as int),
        decreases la - i,
    {
        let ca = sa.get_char(i);
        let cb = sb.get_char(i);
        if ca != cb {
            return ca < cb;
        }
        i = i + 1;
    }
    i < lb && i == la
}

} // verus!
