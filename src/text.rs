use vstd::prelude::*;
use vstd::string::{StrSliceExecFns, StringExecFns};

verus! {

/// The pieces of `s` between the occurrences of `c`; there is always one
/// more piece than there are occurrences.
pub open spec fn split_spec(s: Seq<char>, c: char) -> Seq<Seq<char>>
    decreases s.len(),
{
    if s.len() == 0 {
        seq![Seq::<char>::empty()]
    } else {
        let r = split_spec(s.drop_last(), c);
        if s.last() == c {
            r.push(Seq::<char>::empty())
        } else {
            r.update(r.len() - 1, r.last().push(s.last()))
        }
    }
}

pub proof fn lemma_split_nonempty(s: Seq<char>, c: char)
    ensures
        split_spec(s, c).len() >= 1,
    decreases s.len(),
{
    if s.len() > 0 {
        lemma_split_nonempty(s.drop_last(), c);
    }
}

/// The views of a vector of strings.
pub open spec fn strings_view(v: Seq<String>) -> Seq<Seq<char>> {
    Seq::new(v.len(), |i: int| v[i]@)
}

/// Splits `s` at every occurrence of `c`.
pub fn split_at_char(s: &str, c: char) -> (r: Vec<String>)
    ensures
        strings_view(r@) == split_spec(s@, c),
{
    let n = s.unicode_len();
    let mut out: Vec<String> = Vec::new();
    let mut start: usize = 0;
    let mut i: usize = 0;
    proof {
        assert(s@.subrange(0, 0) =~= Seq::<char>::empty());
        assert(strings_view(out@) =~= Seq::<Seq<char>>::empty());
        assert(strings_view(out@).push(s@.subrange(0, 0)) =~= seq![Seq::<char>::empty()]);
        assert(s@.take(0) =~= Seq::<char>::empty());
    }
    while i < n
        invariant
            n == s@.len(),
            start <= i <= n,
            strings_view(out@).push(s@.subrange(start as int, i as int)) == split_spec(
                s@.take(i as int),
                c,
            ),
        decreases n - i,
    {
        let ghost before = strings_view(out@);
        let ch = s.get_char(i);
        proof {
            lemma_split_nonempty(s@.take(i as int), c);
            assert(s@.take(i as int + 1).drop_last() =~= s@.take(i as int));
        }
        if ch == c {
            let piece = s.substring_char(start, i).to_owned();
            out.push(piece);
            start = i + 1;
            proof {
                assert(strings_view(out@) =~= before.push(piece@));
                assert(s@.subrange(start as int, i as int + 1) =~= Seq::<char>::empty());
            }
        } else {
            proof {
                assert(s@.subrange(start as int, i as int + 1) =~= s@.subrange(
                    start as int,
                    i as int,
                ).push(ch));
            }
        }
        i = i + 1;
    }
    assert(s@.take(n as int) =~= s@);
    let last = s.substring_char(start, n).to_owned();
    out.push(last);
    proof {
        assert(strings_view(out@) =~= strings_view(out@.drop_last()).push(last@));
        assert(out@.drop_last() =~= out@.take(out@.len() - 1));
    }
    out
}

/// `s` with every occurrence of `pat`, scanned from the left and without
/// overlaps, replaced by `rep`.
pub open spec fn replace_spec(s: Seq<char>, pat: Seq<char>, rep: Seq<char>) -> Seq<char>
    decreases s.len(),
{
    if pat.len() == 0 || s.len() == 0 {
        s
    } else if s.len() >= pat.len() && s.take(pat.len() as int) == pat {
        rep + replace_spec(s.skip(pat.len() as int), pat, rep)
    } else {
        seq![s[0]] + replace_spec(s.skip(1), pat, rep)
    }
}

/// Replaces every occurrence of `pat` in `s` by `rep`.
pub fn replace_all(s: &str, pat: &str, rep: &str) -> (r: String)
    ensures
        r@ == replace_spec(s@, pat@, rep@),
{
    let n = s.unicode_len();
    let m = pat.unicode_len();
    if m == 0 {
        return s.to_owned();
    }
    let pat_owned = pat.to_owned();
    let mut out = String::new();
    let mut i: usize = 0;
    assert(s@.skip(0) =~= s@);
    while i < n
        invariant
            n == s@.len(),
            m == pat@.len(),
            m > 0,
            pat_owned@ == pat@,
            i <= n,
            out@ + replace_spec(s@.skip(i as int), pat@, rep@) == replace_spec(s@, pat@, rep@),
        decreases n - i,
    {
        let ghost t = s@.skip(i as int);
        let ghost before = out@;
        if m <= n - i && s.substring_char(i, i + m).to_owned() == pat_owned {
            proof {
                assert(t.take(m as int) =~= s@.subrange(i as int, i + m));
                assert(t.skip(m as int) =~= s@.skip(i + m));
                assert(before + (rep@ + replace_spec(s@.skip(i + m), pat@, rep@)) =~= (before
                    + rep@) + replace_spec(s@.skip(i + m), pat@, rep@));
            }
            out.append(rep);
            i = i + m;
        } else {
            let one = s.substring_char(i, i + 1);
            proof {
                assert(m <= n - i ==> t.take(m as int) =~= s@.subrange(i as int, i + m));
                assert(t.skip(1) =~= s@.skip(i + 1));
                assert(one@ =~= seq![t[0]]);
                assert(before + (seq![t[0]] + replace_spec(s@.skip(i + 1), pat@, rep@)) =~= (
                before + one@) + replace_spec(s@.skip(i + 1), pat@, rep@));
            }
            out.append(one);
            i = i + 1;
        }
    }
    assert(s@.skip(n as int) =~= Seq::<char>::empty());
    assert(out@ + Seq::<char>::empty() =~= out@);
    out
}

/// The value of a decimal digit.
pub open spec fn digit(c: char) -> Option<nat> {
    if c == '0' {
        Some(0)
    } else if c == '1' {
        Some(1)
    } else if c == '2' {
        Some(2)
    } else if c == '3' {
        Some(3)
    } else if c == '4' {
        Some(4)
    } else if c == '5' {
        Some(5)
    } else if c == '6' {
        Some(6)
    } else if c == '7' {
        Some(7)
    } else if c == '8' {
        Some(8)
    } else if c == '9' {
        Some(9)
    } else {
        None
    }
}

/// One or more decimal digits.
pub open spec fn all_digits(s: Seq<char>) -> bool {
    s.len() > 0 && forall|i: int| 0 <= i < s.len() ==> #[trigger] digit(s[i]) is Some
}

/// The number that a string of digits writes in decimal.
pub open spec fn digits_value(s: Seq<char>) -> nat
    decreases s.len(),
{
    if s.len() == 0 {
        0
    } else {
        digits_value(s.drop_last()) * 10 + match digit(s.last()) {
            Some(d) => d,
            None => 0,
        }
    }
}

/// The number that `s` writes as an unsigned machine-word integer: an
/// optional `+` and then decimal digits, at most `usize::MAX`.
pub open spec fn usize_text(s: Seq<char>) -> Option<nat> {
    let d = if s.len() > 0 && s[0] == '+' {
        s.drop_first()
    } else {
        s
    };
    if all_digits(d) && digits_value(d) <= usize::MAX {
        Some(digits_value(d))
    } else {
        None
    }
}

/// The array position that a path segment names in an array of `len`
/// elements: plain digits, without a leading zero, below `len`.
pub open spec fn index_text(s: Seq<char>, len: nat) -> Option<nat> {
    if all_digits(s) && !(s.len() > 1 && s[0] == '0') && digits_value(s) < len {
        Some(digits_value(s))
    } else {
        None
    }
}

fn digit_of(c: char) -> (r: Option<usize>)
    ensures
        r matches Some(d) ==> digit(c) == Some(d as nat),
        r is None ==> digit(c) is None,
{
    if c == '0' {
        Some(0)
    } else if c == '1' {
        Some(1)
    } else if c == '2' {
        Some(2)
    } else if c == '3' {
        Some(3)
    } else if c == '4' {
        Some(4)
    } else if c == '5' {
        Some(5)
    } else if c == '6' {
        Some(6)
    } else if c == '7' {
        Some(7)
    } else if c == '8' {
        Some(8)
    } else if c == '9' {
        Some(9)
    } else {
        None
    }
}

proof fn lemma_digits_grow(s: Seq<char>, j: int)
    requires
        0 <= j <= s.len(),
        forall|i: int| 0 <= i < s.len() ==> #[trigger] digit(s[i]) is Some,
    ensures
        digits_value(s.take(j)) <= digits_value(s),
    decreases s.len() - j,
{
    if j < s.len() {
        lemma_digits_grow(s, j + 1);
        assert(s.take(j + 1).drop_last() =~= s.take(j));
    } else {
        assert(s.take(j) =~= s);
    }
}

/// The value of the digits of `s` from position `from` on, where they are all
/// digits and the value is at most `bound`.
fn digits_upto(s: &str, from: usize, bound: usize) -> (r: Option<usize>)
    requires
        from <= s@.len(),
    ensures
        r matches Some(v) ==> all_digits(s@.skip(from as int)) && digits_value(s@.skip(from as int))
            == v && v <= bound,
        r is None ==> !(all_digits(s@.skip(from as int)) && digits_value(s@.skip(from as int))
            <= bound),
{
    let n = s.unicode_len();
    if from == n {
        return None;
    }
    let ghost t = s@.skip(from as int);
    let mut v: usize = 0;
    let mut i: usize = from;
    assert(t.take(0) =~= Seq::<char>::empty());
    while i < n
        invariant
            n == s@.len(),
            t == s@.skip(from as int),
            from < n,
            from <= i <= n,
            v <= bound,
            v == digits_value(t.take(i - from)),
            forall|j: int| 0 <= j < i - from ==> #[trigger] digit(t[j]) is Some,
        decreases n - i,
    {
        let c = s.get_char(i);
        assert(t[i - from] == c);
        match digit_of(c) {
            None => {
                return None;
            },
            Some(d) => {
                let ghost k = (i - from) as int;
                assert(t.take(k + 1).drop_last() =~= t.take(k));
                if d > bound || v > (bound - d) / 10 {
                    proof {
                        if d <= bound {
                            assert(v * 10 + d > bound) by (nonlinear_arith)
                                requires
                                    v > (bound - d) / 10,
                                    d <= bound,
                            ;
                        }
                        if forall|j: int| 0 <= j < t.len() ==> #[trigger] digit(t[j]) is Some {
                            lemma_digits_grow(t, k + 1);
                        }
                    }
                    return None;
                }
                assert(v * 10 + d <= bound) by (nonlinear_arith)
                    requires
                        v <= (bound - d) / 10,
                        d <= 9,
                ;
                v = v * 10 + d;
                i = i + 1;
            },
        }
    }
    assert(t.take(n - from) =~= t);
    Some(v)
}

/// Reads `s` as an unsigned machine-word integer.
pub fn parse_usize(s: &str) -> (r: Option<usize>)
    ensures
        r matches Some(v) ==> usize_text(s@) == Some(v as nat),
        r is None ==> usize_text(s@) is None,
{
    let n = s.unicode_len();
    if n > 0 && s.get_char(0) == '+' {
        assert(s@.skip(1) =~= s@.drop_first());
        digits_upto(s, 1, usize::MAX)
    } else {
        assert(s@.skip(0) =~= s@);
        digits_upto(s, 0, usize::MAX)
    }
}

/// Reads `s` as a position in an array of `len` elements.
pub fn parse_index(s: &str, len: usize) -> (r: Option<usize>)
    ensures
        r matches Some(v) ==> index_text(s@, len as nat) == Some(v as nat),
        r is None ==> index_text(s@, len as nat) is None,
{
    let n = s.unicode_len();
    if len == 0 {
        return None;
    }
    if n > 1 && s.get_char(0) == '0' {
        return None;
    }
    assert(s@.skip(0) =~= s@);
    digits_upto(s, 0, len - 1)
}

/// The rest of `s` after `p`, where `s` starts with `p`.
pub open spec fn strip_prefix_spec(s: Seq<char>, p: Seq<char>) -> Option<Seq<char>> {
    if p.len() <= s.len() && s.take(p.len() as int) == p {
        Some(s.skip(p.len() as int))
    } else {
        None
    }
}

/// The rest of `s` after `p`, where `s` starts with `p`.
pub fn strip_prefix(s: &str, p: &str) -> (r: Option<String>)
    ensures
        r matches Some(t) ==> strip_prefix_spec(s@, p@) == Some(t@),
        r is None ==> strip_prefix_spec(s@, p@) is None,
{
    let n = s.unicode_len();
    let m = p.unicode_len();
    if m > n {
        return None;
    }
    let head = s.substring_char(0, m).to_owned();
    if head == p.to_owned() {
        assert(s@.take(m as int) =~= s@.subrange(0, m as int));
        let rest = s.substring_char(m, n).to_owned();
        assert(rest@ =~= s@.skip(m as int));
        Some(rest)
    } else {
        assert(s@.take(m as int) =~= s@.subrange(0, m as int));
        None
    }
}

} // verus!
