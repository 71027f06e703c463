//! Character-level helpers shared by the discovery and naming code.
//!
//! Test names and file paths are handled as plain strings; the helpers here
//! give them an exact character-sequence semantics so that the naming rules
//! can be stated and proved at the level of `Seq<char>`.
use vstd::prelude::*;

verus! {

/// The characters of a string, as a vector.
pub fn chars_of(s: &str) -> (r: Vec<char>)
    ensures
        r@ == s@,
{
    let mut r: Vec<char> = Vec::new();
    for c in it: s.chars()
        invariant
            it.seq() == s@,
            r@ == it.seq().take(it.index() as int),
    {
        r.push(c);
    }
    assert(r@ =~= s@);
    r
}

/// Relies on `String`'s `FromIterator<char>` implementation: collecting
/// characters yields the string of exactly those characters, in order.
#[verifier::external_body]
pub fn string_from_chars(v: &Vec<char>) -> (r: String)
    ensures
        r@ == v@,
{
    v.iter().collect()
}

/// Does the character vector `s` start with `prefix`?
pub fn chars_have_prefix(s: &Vec<char>, prefix: &Vec<char>) -> (r: bool)
    ensures
        r == prefix@.is_prefix_of(s@),
{
    if prefix.len() > s.len() {
        return false;
    }
    for i in 0..prefix.len()
        invariant
            prefix.len() <= s.len(),
            forall|j: int| 0 <= j < i ==> prefix@[j] == s@[j],
    {
        if prefix[i] != s[i] {
            return false;
        }
    }
    assert(prefix@.is_prefix_of(s@)) by {
        assert(prefix@ =~= s@.subrange(0, prefix@.len() as int));
    }
    true
}

/// Does `s` start with `prefix`, at the level of characters?
pub fn str_has_prefix(s: &str, prefix: &str) -> (r: bool)
    ensures
        r == prefix@.is_prefix_of(s@),
{
    let sv = chars_of(s);
    let pv = chars_of(prefix);
    chars_have_prefix(&sv, &pv)
}

/// A copy of `v[from..to]`.
pub fn sub_chars(v: &Vec<char>, from: usize, to: usize) -> (r: Vec<char>)
    requires
        from <= to <= v.len(),
    ensures
        r@ == v@.subrange(from as int, to as int),
{
    let mut r: Vec<char> = Vec::new();
    for i in from..to
        invariant
            from <= i <= to <= v.len(),
            r@ == v@.subrange(from as int, i as int),
    {
        r.push(v[i]);
        assert(r@ =~= v@.subrange(from as int, i + 1 as int));
    }
    r
}

/// Index of the first `::` in `s`, if any.
pub open spec fn spec_find_sep(s: Seq<char>) -> Option<int>
    decreases s.len(),
{
    if s.len() < 2 {
        None
    } else if s[0] == ':' && s[1] == ':' {
        Some(0int)
    } else {
        match spec_find_sep(s.drop_first()) {
            Some(i) => Some(i + 1),
            None => None,
        }
    }
}

proof fn lemma_find_sep_none(s: Seq<char>)
    requires
        forall|j: int| 0 <= j < s.len() - 1 ==> !(#[trigger] s[j] == ':' && s[j + 1] == ':'),
    ensures
        spec_find_sep(s) is None,
    decreases s.len(),
{
    if s.len() >= 2 {
        assert(!(s[0] == ':' && s[1] == ':'));
        assert(forall|j: int|
            0 <= j < s.drop_first().len() - 1 ==> !(#[trigger] s.drop_first()[j] == ':'
                && s.drop_first()[j + 1] == ':')) by {
            assert(forall|j: int|
                0 <= j < s.drop_first().len() ==> #[trigger] s.drop_first()[j] == s[j + 1]);
        }
        lemma_find_sep_none(s.drop_first());
    }
}

proof fn lemma_find_sep_at(s: Seq<char>, i: int)
    requires
        0 <= i < s.len() - 1,
        s[i] == ':' && s[i + 1] == ':',
        forall|j: int| 0 <= j < i ==> !(#[trigger] s[j] == ':' && s[j + 1] == ':'),
    ensures
        spec_find_sep(s) == Some(i),
    decreases i,
{
    if i > 0 {
        assert(!(s[0] == ':' && s[1] == ':'));
        assert(forall|j: int|
            0 <= j < s.drop_first().len() ==> #[trigger] s.drop_first()[j] == s[j + 1]);
        lemma_find_sep_at(s.drop_first(), i - 1);
    }
}

/// First position of `::` in `v`, scanning left to right.
pub fn find_sep(v: &Vec<char>) -> (r: Option<usize>)
    ensures
        match r {
            Some(i) => spec_find_sep(v@) == Some(i as int) && i + 1 < v@.len(),
            None => spec_find_sep(v@) is None,
        },
{
    if v.len() < 2 {
        proof {
            lemma_find_sep_none(v@);
        }
        return None;
    }
    let end = v.len() - 1;
    for i in 0..end
        invariant
            end == v.len() - 1,
            v.len() >= 2,
            forall|j: int| 0 <= j < i ==> !(#[trigger] v@[j] == ':' && v@[j + 1] == ':'),
    {
        if v[i] == ':' && v[i + 1] == ':' {
            proof {
                lemma_find_sep_at(v@, i as int);
            }
            return Some(i);
        }
    }
    proof {
        lemma_find_sep_none(v@);
    }
    None
}

/// The decimal digit `d` as a character.
pub open spec fn spec_digit(d: int) -> char {
    if d == 0 {
        '0'
    } else if d == 1 {
        '1'
    } else if d == 2 {
        '2'
    } else if d == 3 {
        '3'
    } else if d == 4 {
        '4'
    } else if d == 5 {
        '5'
    } else if d == 6 {
        '6'
    } else if d == 7 {
        '7'
    } else if d == 8 {
        '8'
    } else {
        '9'
    }
}

/// The decimal rendering of `n`, without leading zeros.
pub open spec fn spec_decimal(n: nat) -> Seq<char>
    decreases n,
{
    if n < 10 {
        seq![spec_digit(n as int)]
    } else {
        spec_decimal(n / 10) + seq![spec_digit((n % 10) as int)]
    }
}

fn digit_char(d: usize) -> (c: char)
    requires
        d < 10,
    ensures
        c == spec_digit(d as int),
{
    if d == 0 {
        '0'
    } else if d == 1 {
        '1'
    } else if d == 2 {
        '2'
    } else if d == 3 {
        '3'
    } else if d == 4 {
        '4'
    } else if d == 5 {
        '5'
    } else if d == 6 {
        '6'
    } else if d == 7 {
        '7'
    } else if d == 8 {
        '8'
    } else {
        '9'
    }
}

fn push_decimal(out: &mut Vec<char>, n: usize)
    ensures
        final(out)@ == old(out)@ + spec_decimal(n as nat),
    decreases n,
{
    if n >= 10 {
        push_decimal(out, n / 10);
    }
    out.push(digit_char(n % 10));
    assert(out@ =~= old(out)@ + spec_decimal(n as nat));
}

/// `n` rendered in decimal.
pub fn decimal_string(n: usize) -> (r: String)
    ensures
        r@ == spec_decimal(n as nat),
{
    let mut v: Vec<char> = Vec::new();
    push_decimal(&mut v, n);
    string_from_chars(&v)
}

/// Whether position `i` of `p` starts a path component — the start of the
/// string, or just after a `/` — with a `.`.
pub open spec fn spec_hidden_at(p: Seq<char>, i: int) -> bool {
    p[i] == '.' && (i == 0 || p[i - 1] == '/')
}

/// No component of `p` begins with `.`.
pub open spec fn spec_no_hidden(p: Seq<char>) -> bool {
    forall|i: int| 0 <= i < p.len() ==> !(#[trigger] spec_hidden_at(p, i))
}

/// Does no component of `v` begin with `.`?
pub fn no_hidden_component(v: &Vec<char>) -> (r: bool)
    ensures
        r == spec_no_hidden(v@),
{
    for i in 0..v.len()
        invariant
            forall|j: int| 0 <= j < i ==> !(#[trigger] spec_hidden_at(v@, j)),
    {
        if v[i] == '.' && (i == 0 || v[i - 1] == '/') {
            proof {
                assert(spec_hidden_at(v@, i as int));
            }
            return false;
        }
    }
    true
}

/// Filtering commutes with appending one element.
pub(crate) proof fn lemma_filter_push<A>(s: Seq<A>, pred: spec_fn(A) -> bool, x: A)
    ensures
        (s.push(x)).filter(pred) == if pred(x) {
            s.filter(pred).push(x)
        } else {
            s.filter(pred)
        },
{
    reveal(Seq::filter);
    assert(s.push(x).drop_last() =~= s);
}

/// Every element of a filtered sequence is an element of the sequence.
pub(crate) proof fn lemma_filter_members<A>(s: Seq<A>, pred: spec_fn(A) -> bool)
    ensures
        forall|i: int|
            0 <= i < s.filter(pred).len() ==> s.contains(#[trigger] s.filter(pred)[i]),
    decreases s.len(),
{
    reveal(Seq::filter);
    if s.len() > 0 {
        lemma_filter_members(s.drop_last(), pred);
        assert forall|i: int|
            0 <= i < s.filter(pred).len() implies s.contains(#[trigger] s.filter(pred)[i]) by {
            let f = s.filter(pred);
            let fd = s.drop_last().filter(pred);
            if i < fd.len() {
                assert(s.drop_last().contains(fd[i]));
                let j = choose|j: int|
                    0 <= j < s.drop_last().len() && s.drop_last()[j] == fd[i];
                assert(s[j] == f[i]);
            } else {
                assert(f[i] == s.last());
                assert(s[s.len() - 1] == f[i]);
            }
        }
    }
}

/// Strip a leading `root` (and one separator after it) from `path`; empty
/// when `path` is shorter than `root`.
pub open spec fn spec_relative(root: Seq<char>, path: Seq<char>) -> Seq<char> {
    if root.len() > path.len() {
        Seq::empty()
    } else {
        let rest = path.skip(root.len() as int);
        if rest.len() > 0 && rest[0] == '/' {
            rest.drop_first()
        } else {
            rest
        }
    }
}

/// The characters of `path` below a root of `root`'s length, without a
/// leading separator.
pub fn relative_chars(rv: &Vec<char>, pv: &Vec<char>) -> (r: Vec<char>)
    ensures
        r@ == spec_relative(rv@, pv@),
{
    if rv.len() > pv.len() {
        let r: Vec<char> = Vec::new();
        proof {
            assert(r@ =~= spec_relative(rv@, pv@));
        }
        return r;
    }
    let mut from: usize = rv.len();
    if from < pv.len() && pv[from] == '/' {
        from = from + 1;
    }
    let sub = sub_chars(pv, from, pv.len());
    proof {
        assert(sub@ =~= spec_relative(rv@, pv@));
    }
    sub
}

/// The part of `path` below `root`, without a leading separator.
pub fn relative_path(root: &str, path: &str) -> (r: String)
    requires
        root@.is_prefix_of(path@),
    ensures
        r@ == spec_relative(root@, path@),
{
    let rv = chars_of(root);
    let pv = chars_of(path);
    let sub = relative_chars(&rv, &pv);
    string_from_chars(&sub)
}

} // verus!
