//! Character classes, string comparison and decimal numbers.
use vstd::prelude::*;
use vstd::string::*;
use vstd::utf8::{
    char_is_scalar, decode_utf8, encode_scalar, encode_utf8, encode_utf8_decode_utf8,
    encode_utf8_valid_utf8, is_char_boundary, valid_utf8_split,
};
use vstd::std_specs::iter::IteratorSpec;

verus! {

broadcast use vstd::string::group_string_axioms;

/// Whether `c` has the Unicode `Alphabetic` property.
pub uninterp spec fn alphabetic(c: char) -> bool;

/// Whether `c` has the Unicode `White_Space` property.
pub uninterp spec fn white_space(c: char) -> bool;

/// Relies on `char::is_alphabetic`: true exactly for the characters with the
/// Unicode `Alphabetic` property, which depends on the character alone.
#[verifier::external_body]
pub(crate) fn is_alphabetic(c: char) -> (r: bool)
    ensures
        r == alphabetic(c),
{
    c.is_alphabetic()
}

/// Relies on `char::is_whitespace`: true exactly for the characters with the
/// Unicode `White_Space` property, which depends on the character alone.
#[verifier::external_body]
pub(crate) fn is_whitespace(c: char) -> (r: bool)
    ensures
        r == white_space(c),
{
    c.is_whitespace()
}

/// The characters of `s`, in order.
pub fn chars_of(s: &str) -> (r: Vec<char>)
    ensures
        r@ == s@,
{
    let mut out: Vec<char> = Vec::new();
    for c in it: s.chars()
        invariant
            it.seq() == s@,
            out@ == it.seq().take(it.index() as int),
    {
        out.push(c);
    }
    out
}

/// Whether two strings hold the same characters.
pub fn str_eq(a: &str, b: &str) -> (r: bool)
    ensures
        r == (a@ == b@),
{
    let x = chars_of(a);
    let y = chars_of(b);
    if x.len() != y.len() {
        return false;
    }
    let mut i: usize = 0;
    while i < x.len()
        invariant
            x@ == a@,
            y@ == b@,
            x.len() == y.len(),
            i <= x.len(),
            forall|k: int| 0 <= k < i ==> x@[k] == y@[k],
        decreases x.len() - i,
    {
        if x[i] != y[i] {
            return false;
        }
        i = i + 1;
    }
    assert(x@ =~= y@);
    true
}

/// The characters of an optional string.
pub open spec fn opt_str(a: Option<&str>) -> Option<Seq<char>> {
    match a {
        Some(s) => Some(s@),
        None => None,
    }
}

/// Whether `s` begins with `p`.
pub open spec fn has_prefix(s: Seq<char>, p: Seq<char>) -> bool {
    p.len() <= s.len() && s.take(p.len() as int) == p
}

/// Whether `s` begins with `p`.
pub fn starts_with(s: &str, p: &str) -> (r: bool)
    ensures
        r == has_prefix(s@, p@),
{
    let x = chars_of(s);
    let y = chars_of(p);
    if y.len() > x.len() {
        return false;
    }
    let mut i: usize = 0;
    while i < y.len()
        invariant
            x@ == s@,
            y@ == p@,
            y.len() <= x.len(),
            i <= y.len(),
            forall|k: int| 0 <= k < i ==> x@[k] == y@[k],
        decreases y.len() - i,
    {
        if x[i] != y[i] {
            assert(s@.take(p@.len() as int)[i as int] != p@[i as int]);
            return false;
        }
        i = i + 1;
    }
    assert(s@.take(p@.len() as int) =~= p@);
    true
}

/// `s` with every occurrence of `from` replaced by `to`, left to right.
pub open spec fn replaced(s: Seq<char>, from: Seq<char>, to: Seq<char>) -> Seq<char>
    decreases s.len(),
{
    if s.len() == 0 {
        Seq::empty()
    } else if from.len() > 0 && has_prefix(s, from) {
        to + replaced(s.skip(from.len() as int), from, to)
    } else {
        seq![s[0]] + replaced(s.drop_first(), from, to)
    }
}

fn occurs_at(x: &Vec<char>, p: &Vec<char>, i: usize) -> (r: bool)
    requires
        i <= x.len(),
    ensures
        r == has_prefix(x@.skip(i as int), p@),
{
    if p.len() > x.len() - i {
        return false;
    }
    let mut k: usize = 0;
    while k < p.len()
        invariant
            i + p.len() <= x.len(),
            k <= p.len(),
            forall|j: int| 0 <= j < k ==> x@[i + j] == p@[j],
        decreases p.len() - k,
    {
        if x[i + k] != p[k] {
            assert(x@.skip(i as int).take(p@.len() as int)[k as int] != p@[k as int]);
            return false;
        }
        k = k + 1;
    }
    assert(x@.skip(i as int).take(p@.len() as int) =~= p@);
    true
}

/// `s` with every occurrence of `from` replaced by `to`, left to right.
pub fn replace_all(s: &str, from: &str, to: &str) -> (r: String)
    requires
        from@.len() > 0,
    ensures
        r@ == replaced(s@, from@, to@),
{
    let x = chars_of(s);
    let p = chars_of(from);
    let n = x.len();
    let mut out = String::new();
    let mut run: usize = 0;
    let mut i: usize = 0;
    assert(s@.subrange(0, 0) =~= Seq::<char>::empty());
    assert(s@.skip(0) =~= s@);
    while i < n
        invariant
            x@ == s@,
            p@ == from@,
            n == x.len(),
            p.len() > 0,
            run <= i <= n,
            out@ + s@.subrange(run as int, i as int) + replaced(s@.skip(i as int), from@, to@)
                == replaced(s@, from@, to@),
        decreases n - i,
    {
        let ghost rest = s@.skip(i as int);
        if occurs_at(&x, &p, i) {
            let piece = s.substring_char(run, i);
            let ghost before = out@;
            let ghost old_run = run;
            let ghost old_i = i;
            out.append(piece);
            out.append(to);
            assert(rest.skip(from@.len() as int) =~= s@.skip(i + p.len()));
            assert(replaced(rest, from@, to@) == to@ + replaced(
                rest.skip(from@.len() as int),
                from@,
                to@,
            ));
            i = i + p.len();
            run = i;
            assert(s@.subrange(run as int, i as int) =~= Seq::<char>::empty());
            assert(out@ + s@.subrange(run as int, i as int) + replaced(
                s@.skip(i as int),
                from@,
                to@,
            ) =~= before + s@.subrange(old_run as int, old_i as int) + replaced(rest, from@, to@));
        } else {
            assert(rest.drop_first() =~= s@.skip(i + 1));
            assert(s@.subrange(run as int, i + 1) =~= s@.subrange(run as int, i as int) + seq![
                s@[i as int],
            ]);
            i = i + 1;
        }
    }
    let tail = s.substring_char(run, n);
    out.append(tail);
    assert(s@.skip(n as int) =~= Seq::<char>::empty());
    assert(out@ =~= replaced(s@, from@, to@));
    out
}

/// How many bytes the UTF-8 encoding of `c` takes.
pub open spec fn utf8_width(c: char) -> nat {
    if (c as u32) <= 0x7F {
        1
    } else if (c as u32) <= 0x7FF {
        2
    } else if (c as u32) <= 0xFFFF {
        3
    } else {
        4
    }
}

/// How many bytes the UTF-8 encoding of `c` takes.
pub fn char_width(c: char) -> (r: usize)
    ensures
        r == utf8_width(c),
{
    let v = c as u32;
    if v <= 0x7F {
        1
    } else if v <= 0x7FF {
        2
    } else if v <= 0xFFFF {
        3
    } else {
        4
    }
}

/// The byte position of character `i` of `s`: how many bytes the UTF-8
/// encoding of the characters before it takes.
pub open spec fn byte_position(s: Seq<char>, i: int) -> nat {
    encode_utf8(s.take(i)).len()
}

proof fn lemma_encode_push(a: Seq<char>, c: char)
    ensures
        encode_utf8(a.push(c)) == encode_utf8(a) + encode_scalar(c as u32),
    decreases a.len(),
{
    if a.len() == 0 {
        assert(a.push(c).drop_first() =~= Seq::<char>::empty());
        assert(a.push(c)[0] == c);
        assert(encode_utf8(Seq::<char>::empty()) =~= Seq::<u8>::empty());
        assert(encode_utf8(a) =~= Seq::<u8>::empty());
        assert(encode_utf8(a.push(c)) =~= encode_utf8(a) + encode_scalar(c as u32));
    } else {
        assert(a.push(c).drop_first() =~= a.drop_first().push(c));
        lemma_encode_push(a.drop_first(), c);
        assert(encode_utf8(a.push(c)) =~= encode_utf8(a) + encode_scalar(c as u32));
    }
}

proof fn lemma_encode_concat(a: Seq<char>, b: Seq<char>)
    ensures
        encode_utf8(a + b) == encode_utf8(a) + encode_utf8(b),
    decreases a.len(),
{
    if a.len() == 0 {
        assert(a + b =~= b);
        assert(encode_utf8(a) + encode_utf8(b) =~= encode_utf8(b));
    } else {
        assert((a + b).drop_first() =~= a.drop_first() + b);
        lemma_encode_concat(a.drop_first(), b);
        assert(encode_utf8(a + b) =~= encode_utf8(a) + encode_utf8(b));
    }
}

/// The byte position of the next character is that of this one and its
/// width.
pub proof fn lemma_byte_position_step(s: Seq<char>, i: int)
    requires
        0 <= i < s.len(),
    ensures
        byte_position(s, i + 1) == byte_position(s, i) + utf8_width(s[i]),
        byte_position(s, i + 1) <= encode_utf8(s).len(),
{
    assert(s.take(i + 1) =~= s.take(i).push(s[i]));
    lemma_encode_push(s.take(i), s[i]);
    char_is_scalar(s[i]);
    assert(s =~= s.take(i + 1) + s.skip(i + 1));
    lemma_encode_concat(s.take(i + 1), s.skip(i + 1));
}

/// The characters of `s` whose UTF-8 bytes lie from `start` up to `end`,
/// where both are character boundaries.
pub open spec fn byte_span(s: Seq<char>, start: int, end: int) -> Option<Seq<char>> {
    let b = encode_utf8(s);
    if 0 <= start <= end <= b.len() && is_char_boundary(b, end) && is_char_boundary(
        b.subrange(0, end),
        start,
    ) {
        Some(decode_utf8(b.subrange(start, end)))
    } else {
        None
    }
}

/// The part of `s` from byte `start` up to byte `end`, where both are
/// character boundaries.
pub fn slice_bytes<'a>(s: &'a str, start: usize, end: usize) -> (r: Option<&'a str>)
    ensures
        opt_str(r) == byte_span(s@, start as int, end as int),
{
    proof {
        encode_utf8_valid_utf8(s@);
    }
    assert(s.spec_bytes() == encode_utf8(s@));
    let n = s.as_bytes().len();
    if start <= end && end <= n && s.is_char_boundary(end) {
        let (left, _) = s.split_at(end);
        proof {
            valid_utf8_split(s.spec_bytes(), end as int);
            assert(left.spec_bytes() == encode_utf8(s@).subrange(0, end as int));
        }
        if left.is_char_boundary(start) {
            let (_, mid) = left.split_at(start);
            proof {
                let b = encode_utf8(s@);
                assert(mid.spec_bytes() =~= b.subrange(start as int, end as int));
                encode_utf8_decode_utf8(mid@);
            }
            return Some(mid);
        }
    }
    None
}

/// How many bytes the UTF-8 encoding of `s` takes.
pub fn byte_len(s: &str) -> (r: usize)
    ensures
        r == encode_utf8(s@).len(),
{
    s.as_bytes().len()
}

} // verus!
