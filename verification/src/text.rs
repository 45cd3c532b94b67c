//! Character-level helpers shared by the value types: code-point ordering of
//! text, equality, decimal rendering of integers, and building strings.
use vstd::prelude::*;

verus! {

/// Strict lexicographic order on character sequences, comparing code points.
///
/// Rust orders `str` by its UTF-8 bytes, and UTF-8 preserves code-point order,
/// so this is the order in which a `BTreeMap<String, _>` keeps its keys.
pub open spec fn text_less(a: Seq<char>, b: Seq<char>) -> bool
    decreases a.len(),
{
    if b.len() == 0 {
        false
    } else if a.len() == 0 {
        true
    } else if a[0] != b[0] {
        (a[0] as int) < (b[0] as int)
    } else {
        text_less(a.drop_first(), b.drop_first())
    }
}

/// No text is less than itself.
pub proof fn lemma_text_less_irreflexive(a: Seq<char>)
    ensures
        !text_less(a, a),
    decreases a.len(),
{
    if a.len() > 0 {
        lemma_text_less_irreflexive(a.drop_first());
    }
}

/// The order is transitive.
pub proof fn lemma_text_less_transitive(a: Seq<char>, b: Seq<char>, c: Seq<char>)
    requires
        text_less(a, b),
        text_less(b, c),
    ensures
        text_less(a, c),
    decreases a.len(),
{
    if a.len() > 0 && b.len() > 0 && c.len() > 0 && a[0] == b[0] && b[0] == c[0] {
        lemma_text_less_transitive(a.drop_first(), b.drop_first(), c.drop_first());
    }
}

/// Two different texts are ordered one way or the other.
pub proof fn lemma_text_less_total(a: Seq<char>, b: Seq<char>)
    requires
        a != b,
    ensures
        text_less(a, b) || text_less(b, a),
    decreases a.len(),
{
    if a.len() > 0 && b.len() > 0 && a[0] == b[0] {
        if a.drop_first() == b.drop_first() {
            assert(a.len() == b.drop_first().len() + 1);
            assert(a =~= b) by {
                assert forall|i: int| 0 <= i < a.len() implies a[i] == b[i] by {
                    if i > 0 {
                        assert(a[i] == a.drop_first()[i - 1]);
                        assert(b[i] == b.drop_first()[i - 1]);
                    }
                }
            }
        } else {
            lemma_text_less_total(a.drop_first(), b.drop_first());
        }
    } else if a.len() == 0 && b.len() == 0 {
        assert(a =~= b);
    } else if a.len() > 0 && b.len() > 0 {
        assert(a[0] != b[0]);
        assert((a[0] as int) != (b[0] as int));
    }
}

/// Collects the characters of a string.
pub fn chars_of(s: &str) -> (v: Vec<char>)
    ensures
        v@ == s@,
{
    let mut v: Vec<char> = Vec::new();
    for c in it: s.chars()
        invariant
            v@ == it.seq().take(it.index() as int),
            it.seq() == s@,
    {
        v.push(c);
    }
    v
}

/// Whether `a` comes strictly before `b` in code-point order.
pub fn text_lt(a: &str, b: &str) -> (r: bool)
    ensures
        r == text_less(a@, b@),
{
    let av = chars_of(a);
    let bv = chars_of(b);
    let mut i: usize = 0;
    assert(a@.skip(0) =~= a@);
    assert(b@.skip(0) =~= b@);
    while i < av.len() && i < bv.len()
        invariant
            i <= av@.len(),
            i <= bv@.len(),
            av@ == a@,
            bv@ == b@,
            text_less(a@, b@) == text_less(a@.skip(i as int), b@.skip(i as int)),
        decreases av@.len() - i,
    {
        if av[i] != bv[i] {
            return av[i] < bv[i];
        }
        assert(a@.skip(i as int).drop_first() =~= a@.skip(i + 1));
        assert(b@.skip(i as int).drop_first() =~= b@.skip(i + 1));
        i = i + 1;
    }
    i == av.len() && i < bv.len()
}

/// Whether two strings hold the same characters.
pub fn text_eq(a: &str, b: &str) -> (r: bool)
    ensures
        r == (a@ == b@),
{
    let x: String = a.to_owned();
    let y: String = b.to_owned();
    x == y
}

/// Copies a string slice into an owned string.
pub fn owned(s: &str) -> (r: String)
    ensures
        r@ == s@,
{
    s.to_owned()
}

/// The character of a decimal digit.
pub open spec fn digit_char(d: int) -> char {
    if d == 0 { '0' } else if d == 1 { '1' } else if d == 2 { '2' } else if d == 3 { '3' }
    else if d == 4 { '4' } else if d == 5 { '5' } else if d == 6 { '6' } else if d == 7 { '7' }
    else if d == 8 { '8' } else { '9' }
}

/// The decimal digits of a natural number, most significant first, without leading zeros.
pub open spec fn decimal_digits(n: nat) -> Seq<char>
    decreases n,
{
    if n < 10 {
        seq![digit_char(n as int)]
    } else {
        decimal_digits(n / 10).push(digit_char((n % 10) as int))
    }
}

/// The text that `Display` gives an integer: a minus sign for negative values, then the digits.
pub open spec fn decimal_text(n: int) -> Seq<char> {
    if n < 0 {
        seq!['-'] + decimal_digits((-n) as nat)
    } else {
        decimal_digits(n as nat)
    }
}

/// The one-character text of a decimal digit.
fn digit_text(d: u64) -> (t: &'static str)
    requires
        d < 10,
    ensures
        t@ == seq![digit_char(d as int)],
{
    if d == 0 {
        proof { reveal_strlit("0"); }
        "0"
    } else if d == 1 {
        proof { reveal_strlit("1"); }
        "1"
    } else if d == 2 {
        proof { reveal_strlit("2"); }
        "2"
    } else if d == 3 {
        proof { reveal_strlit("3"); }
        "3"
    } else if d == 4 {
        proof { reveal_strlit("4"); }
        "4"
    } else if d == 5 {
        proof { reveal_strlit("5"); }
        "5"
    } else if d == 6 {
        proof { reveal_strlit("6"); }
        "6"
    } else if d == 7 {
        proof { reveal_strlit("7"); }
        "7"
    } else if d == 8 {
        proof { reveal_strlit("8"); }
        "8"
    } else {
        proof { reveal_strlit("9"); }
        "9"
    }
}

/// Appends the decimal digits of `n` to `out`.
pub fn append_digits(out: &mut String, n: u64)
    ensures
        final(out)@ == old(out)@ + decimal_digits(n as nat),
    decreases n,
{
    if n < 10 {
        append_text(out, digit_text(n));
        assert(decimal_digits(n as nat) =~= seq![digit_char(n as int)]);
    } else {
        append_digits(out, n / 10);
        append_text(out, digit_text(n % 10));
        assert(decimal_digits(n as nat) == decimal_digits((n / 10) as nat).push(
            digit_char((n % 10) as int),
        ));
    }
}

/// Appends the decimal text of `n` to `out`, as `write!(out, "{n}")` does.
pub fn append_decimal(out: &mut String, n: i64)
    ensures
        final(out)@ == old(out)@ + decimal_text(n as int),
{
    if n < 0 {
        proof { reveal_strlit("-"); }
        append_text(out, "-");
        let magnitude: u64 = (0i128 - (n as i128)) as u64;
        let ghost before = out@;
        append_digits(out, magnitude);
        assert(out@ =~= old(out)@ + decimal_text(n as int));
    } else {
        append_digits(out, n as u64);
    }
}

/// Appends a string slice to `out`.
pub fn append_text(out: &mut String, s: &str)
    ensures
        final(out)@ == old(out)@ + s@,
{
    out.append(s);
}

/// The characters of each string in a sequence.
pub open spec fn texts_view(s: Seq<String>) -> Seq<Seq<char>> {
    Seq::new(s.len(), |i: int| s[i]@)
}

/// Strictly increasing in code-point order (so also free of duplicates).
pub open spec fn texts_sorted(s: Seq<Seq<char>>) -> bool {
    forall|i: int, j: int| 0 <= i < j < s.len() ==> text_less(#[trigger] s[i], #[trigger] s[j])
}

/// Copies a vector of strings.
pub fn copy_texts(v: &Vec<String>) -> (r: Vec<String>)
    ensures
        texts_view(r@) == texts_view(v@),
{
    let mut out: Vec<String> = Vec::new();
    let mut i: usize = 0;
    while i < v.len()
        invariant
            i <= v@.len(),
            out@.len() == i,
            forall|j: int| 0 <= j < i ==> #[trigger] out@[j]@ == v@[j]@,
        decreases v@.len() - i,
    {
        out.push(v[i].clone());
        i = i + 1;
    }
    assert(texts_view(out@) =~= texts_view(v@));
    out
}

/// Whether `s` holds a string with the characters of `key`.
pub fn texts_contain(s: &Vec<String>, key: &str) -> (r: bool)
    ensures
        r == texts_view(s@).contains(key@),
{
    let mut i: usize = 0;
    while i < s.len()
        invariant
            i <= s@.len(),
            forall|j: int| 0 <= j < i ==> s@[j]@ != key@,
        decreases s@.len() - i,
    {
        if text_eq(s[i].as_str(), key) {
            assert(texts_view(s@)[i as int] == key@);
            return true;
        }
        i = i + 1;
    }
    proof {
        if texts_view(s@).contains(key@) {
            let j = choose|j: int| 0 <= j < texts_view(s@).len() && texts_view(s@)[j] == key@;
            assert(s@[j]@ == key@);
        }
    }
    false
}

/// The list with `key` appended unless it already holds it.
pub open spec fn push_unique_text(s: Seq<Seq<char>>, key: Seq<char>) -> Seq<Seq<char>> {
    if s.contains(key) {
        s
    } else {
        s.push(key)
    }
}

/// Appends `key` to `s` unless `s` already holds it.
pub fn push_text_unique(s: &mut Vec<String>, key: &str)
    ensures
        texts_view(final(s)@) == push_unique_text(texts_view(old(s)@), key@),
{
    if !texts_contain(s, key) {
        s.push(owned(key));
        assert(texts_view(s@) =~= texts_view(old(s)@).push(key@));
    }
}

/// The characters of an optional string.
pub open spec fn opt_text_view(s: Option<String>) -> Option<Seq<char>> {
    match s {
        Some(t) => Some(t@),
        None => None,
    }
}

/// The characters of each string of an optional list.
pub open spec fn opt_texts_view(s: Option<Vec<String>>) -> Option<Seq<Seq<char>>> {
    match s {
        Some(v) => Some(texts_view(v@)),
        None => None,
    }
}

/// Copies an optional string.
pub fn copy_opt_text(s: &Option<String>) -> (r: Option<String>)
    ensures
        opt_text_view(r) == opt_text_view(*s),
{
    match s {
        Some(t) => Some(t.clone()),
        None => None,
    }
}

/// Copies an optional list of strings.
pub fn copy_opt_texts(s: &Option<Vec<String>>) -> (r: Option<Vec<String>>)
    ensures
        opt_texts_view(r) == opt_texts_view(*s),
{
    match s {
        Some(v) => Some(copy_texts(v)),
        None => None,
    }
}

/// Borrows an optional string as an optional slice.
pub fn borrow_opt_text(s: &Option<String>) -> (r: Option<&str>)
    ensures
        r is Some <==> s is Some,
        r is Some ==> r->0@ == s->0@,
{
    match s {
        Some(t) => Some(t.as_str()),
        None => None,
    }
}

/// Borrows an optional list of strings as an optional slice.
pub fn borrow_opt_texts(s: &Option<Vec<String>>) -> (r: Option<&[String]>)
    ensures
        r is Some <==> s is Some,
        r is Some ==> texts_view(r->0@) == texts_view(s->0@),
{
    match s {
        Some(v) => Some(v.as_slice()),
        None => None,
    }
}

} // verus!
