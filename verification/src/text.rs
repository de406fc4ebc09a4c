//! Text helpers over the UTF-8 bytes of strings: substring search, equality,
//! the byte order that `str` uses, and decimal rendering of integers.

use vstd::prelude::*;
use vstd::utf8::encode_utf8;

verus! {

/// The UTF-8 encoding of a text, which is what `str` stores.
pub open spec fn utf8(text: Seq<char>) -> Seq<u8> {
    encode_utf8(text)
}

/// `needle` occurs in `hay` starting at byte offset `at`.
pub open spec fn occurs_at(hay: Seq<u8>, needle: Seq<u8>, at: int) -> bool {
    0 <= at && at + needle.len() <= hay.len() && hay.subrange(at, at + needle.len()) =~= needle
}

/// The UTF-8 encoding of `needle` occurs somewhere in that of `hay`; this is
/// the meaning of `str::contains` with a string pattern.
pub open spec fn text_contains(hay: Seq<char>, needle: Seq<char>) -> bool {
    exists|at: int| #[trigger] occurs_at(utf8(hay), utf8(needle), at)
}

/// Searches `needle` in `hay`.
pub fn contains(hay: &str, needle: &str) -> (found: bool)
    ensures
        found == text_contains(hay@, needle@),
{
    let h = hay.as_bytes();
    let n = needle.as_bytes();
    let hl = h.len();
    let nl = n.len();
    if nl > hl {
        assert forall|at: int| !#[trigger] occurs_at(utf8(hay@), utf8(needle@), at) by {}
        return false;
    }
    let mut start: usize = 0;
    while start <= hl - nl
        invariant
            h@ == utf8(hay@),
            n@ == utf8(needle@),
            hl == h@.len(),
            nl == n@.len(),
            nl <= hl,
            start <= hl - nl + 1,
            forall|at: int| 0 <= at < start ==> !#[trigger] occurs_at(utf8(hay@), utf8(needle@), at),
        decreases hl - nl + 1 - start,
    {
        let mut k: usize = 0;
        let mut same = true;
        while same && k < nl
            invariant
                h@ == utf8(hay@),
                n@ == utf8(needle@),
                hl == h@.len(),
                nl == n@.len(),
                start + nl <= hl,
                k <= nl,
                same ==> forall|j: int| 0 <= j < k ==> h@[start + j] == n@[j],
                !same ==> !occurs_at(utf8(hay@), utf8(needle@), start as int),
            decreases nl - k + (if same { 1int } else { 0int }),
        {
            if h[start + k] != n[k] {
                assert(h@.subrange(start as int, start + nl)[k as int] != n@[k as int]);
                same = false;
            } else {
                k = k + 1;
            }
        }
        if same {
            assert(h@.subrange(start as int, start + nl) =~= n@);
            assert(occurs_at(utf8(hay@), utf8(needle@), start as int));
            return true;
        }
        start = start + 1;
    }
    assert forall|at: int| !#[trigger] occurs_at(utf8(hay@), utf8(needle@), at) by {
        if 0 <= at && at + nl <= hl {
            assert(at < start);
        }
    }
    false
}


/// Lexicographic comparison of byte strings, the order of `str` and `String`:
/// negative, zero or positive as `a` sorts before, equal to or after `b`.
pub open spec fn lex_sign(a: Seq<u8>, b: Seq<u8>) -> int
    decreases a.len(),
{
    if a.len() == 0 {
        if b.len() == 0 { 0 } else { -1 }
    } else if b.len() == 0 {
        1
    } else if a[0] < b[0] {
        -1
    } else if a[0] > b[0] {
        1
    } else {
        lex_sign(a.drop_first(), b.drop_first())
    }
}

/// Text `a` sorts strictly before text `b` in the order of `String`.
pub open spec fn text_less(a: Seq<char>, b: Seq<char>) -> bool {
    lex_sign(utf8(a), utf8(b)) < 0
}

/// The comparison is zero exactly on equal byte strings.
pub proof fn lemma_lex_sign_zero(a: Seq<u8>, b: Seq<u8>)
    ensures
        (lex_sign(a, b) == 0) == (a == b),
        -1 <= lex_sign(a, b) <= 1,
    decreases a.len(),
{
    if a.len() > 0 && b.len() > 0 && a[0] == b[0] {
        lemma_lex_sign_zero(a.drop_first(), b.drop_first());
        if a.drop_first() == b.drop_first() {
            assert(a =~= seq![a[0]] + a.drop_first());
            assert(b =~= seq![b[0]] + b.drop_first());
        }
    } else if a.len() > 0 && b.len() > 0 {
        assert(a[0] != b[0]);
    } else if a.len() == 0 && b.len() == 0 {
        assert(a =~= b);
    }
}

/// Swapping the operands negates the comparison.
pub proof fn lemma_lex_sign_antisymmetric(a: Seq<u8>, b: Seq<u8>)
    ensures
        lex_sign(a, b) == -lex_sign(b, a),
    decreases a.len(),
{
    if a.len() > 0 && b.len() > 0 && a[0] == b[0] {
        lemma_lex_sign_antisymmetric(a.drop_first(), b.drop_first());
    }
}

/// The strict order is transitive.
pub proof fn lemma_lex_sign_transitive(a: Seq<u8>, b: Seq<u8>, c: Seq<u8>)
    requires
        lex_sign(a, b) < 0,
        lex_sign(b, c) < 0,
    ensures
        lex_sign(a, c) < 0,
    decreases a.len(),
{
    if a.len() > 0 && b.len() > 0 && c.len() > 0 && a[0] == b[0] && b[0] == c[0] {
        lemma_lex_sign_transitive(a.drop_first(), b.drop_first(), c.drop_first());
    }
}

/// Distinct texts have distinct encodings.
pub proof fn lemma_utf8_injective(a: Seq<char>, b: Seq<char>)
    ensures
        (utf8(a) == utf8(b)) == (a == b),
{
    vstd::utf8::encode_utf8_decode_utf8(a);
    vstd::utf8::encode_utf8_decode_utf8(b);
}

/// The outcome of comparing two texts.
#[derive(PartialEq, Eq, Structural, Clone, Copy, Debug)]
pub enum TextOrder {
    Before,
    Same,
    After,
}

/// Compares two texts in the order of `str` (byte-wise lexicographic).
pub fn compare_text(a: &str, b: &str) -> (r: TextOrder)
    ensures
        r == TextOrder::Before <==> lex_sign(utf8(a@), utf8(b@)) < 0,
        r == TextOrder::Same <==> a@ == b@,
        r == TextOrder::After <==> lex_sign(utf8(a@), utf8(b@)) > 0,
{
    let x = a.as_bytes();
    let y = b.as_bytes();
    let ghost ea = utf8(a@);
    let ghost eb = utf8(b@);
    proof {
        lemma_lex_sign_zero(ea, eb);
        lemma_utf8_injective(a@, b@);
    }
    let mut i: usize = 0;
    assert(ea.skip(0) =~= ea && eb.skip(0) =~= eb);
    while i < x.len() && i < y.len() && x[i] == y[i]
        invariant
            x@ == ea,
            y@ == eb,
            i <= x@.len(),
            i <= y@.len(),
            lex_sign(ea, eb) == lex_sign(ea.skip(i as int), eb.skip(i as int)),
        decreases x@.len() - i,
    {
        assert(ea.skip(i as int).drop_first() =~= ea.skip(i + 1));
        assert(eb.skip(i as int).drop_first() =~= eb.skip(i + 1));
        i = i + 1;
    }
    if i == x.len() {
        if i == y.len() { TextOrder::Same } else { TextOrder::Before }
    } else if i == y.len() {
        TextOrder::After
    } else if x[i] < y[i] {
        TextOrder::Before
    } else {
        TextOrder::After
    }
}

/// Tells whether two texts are equal.
pub fn same_text(a: &str, b: &str) -> (r: bool)
    ensures
        r == (a@ == b@),
{
    compare_text(a, b) == TextOrder::Same
}


/// The character of a decimal digit.
pub open spec fn digit_char(d: nat) -> char {
    ((d + 48) as u8) as char
}

/// The decimal numeral of a natural number, without leading zeros.
pub open spec fn decimal(n: nat) -> Seq<char>
    decreases n,
{
    if n < 10 {
        seq![digit_char(n)]
    } else {
        decimal(n / 10).push(digit_char(n % 10))
    }
}

/// The decimal numeral of an integer, with a leading `-` when negative; the
/// text that `Display` gives for Rust's integers.
pub open spec fn signed_decimal(n: int) -> Seq<char> {
    if n < 0 {
        seq!['-'] + decimal((-n) as nat)
    } else {
        decimal(n as nat)
    }
}

/// Appends one character (`String::push`).
#[verifier::external_body]
fn push_char(s: &mut String, c: char)
    ensures
        final(s)@ == old(s)@.push(c),
{
    s.push(c);
}

fn digit(d: u64) -> (c: char)
    requires
        d < 10,
    ensures
        c == digit_char(d as nat),
{
    let b: u8 = d as u8 + 48u8;
    b as char
}

/// Appends the decimal numeral of `n`.
pub fn push_decimal(s: &mut String, n: u64)
    ensures
        final(s)@ == old(s)@ + decimal(n as nat),
    decreases n,
{
    if n >= 10 {
        push_decimal(s, n / 10);
    }
    push_char(s, digit(n % 10));
    proof {
        if n >= 10 {
            assert(decimal(n as nat) == decimal((n / 10) as nat).push(digit_char((n % 10) as nat)));
        }
    }
}

/// Appends the decimal numeral of a signed integer.
pub fn push_signed_decimal(s: &mut String, n: i64)
    ensures
        final(s)@ == old(s)@ + signed_decimal(n as int),
{
    if n < 0 {
        push_char(s, '-');
        let magnitude: u64 = (-(n + 1)) as u64 + 1;
        push_decimal(s, magnitude);
        assert(s@ =~= old(s)@ + signed_decimal(n as int));
    } else {
        push_decimal(s, n as u64);
    }
}

/// A new string holding `a`.
pub fn text_of(a: &str) -> (r: String)
    ensures
        r@ == a@,
{
    a.to_owned()
}

/// The concatenation of three texts.
pub fn join3(a: &str, b: &str, c: &str) -> (r: String)
    ensures
        r@ == a@ + b@ + c@,
{
    let mut s = text_of(a);
    s.append(b);
    s.append(c);
    s
}

/// The concatenation of two texts.
pub fn join2(a: &str, b: &str) -> (r: String)
    ensures
        r@ == a@ + b@,
{
    let mut s = text_of(a);
    s.append(b);
    s
}

} // verus!
