//! Media queries: the two breakpoint relations, their order of emission, and
//! the breakpoint written in an attribute name.
use vstd::prelude::*;

use crate::text::{chars_of, has_prefix, starts_with};

verus! {

/// The media query a rule is scoped to.
#[derive(Debug, Clone, PartialEq, Eq, Hash)]
pub enum MediaQuery {
    /// Wider than the breakpoint; carries the base attribute value that
    /// applies there.
    SuperiorTo(usize, String),
    /// At most the breakpoint wide.
    InferiorOrEqualTo(usize),
}

/// A media query as plain values.
pub enum QueryModel {
    Above(nat, Seq<char>),
    AtMost(nat),
}

impl View for MediaQuery {
    type V = QueryModel;

    open spec fn view(&self) -> QueryModel {
        match self {
            MediaQuery::SuperiorTo(b, v) => QueryModel::Above(*b as nat, v@),
            MediaQuery::InferiorOrEqualTo(b) => QueryModel::AtMost(*b as nat),
        }
    }
}

/// The breakpoint of a media query.
pub open spec fn breakpoint_of(q: QueryModel) -> nat {
    match q {
        QueryModel::Above(b, _) => b,
        QueryModel::AtMost(b) => b,
    }
}

/// Whether `a` is emitted no later than `b`: every "at most" query comes
/// before every "above" query, and within one relation the larger breakpoint
/// comes first.
pub open spec fn emitted_no_later(a: QueryModel, b: QueryModel) -> bool {
    match (a, b) {
        (QueryModel::AtMost(x), QueryModel::AtMost(y)) => x >= y,
        (QueryModel::AtMost(_), QueryModel::Above(_, _)) => true,
        (QueryModel::Above(_, _), QueryModel::AtMost(_)) => false,
        (QueryModel::Above(x, _), QueryModel::Above(y, _)) => x >= y,
    }
}

/// The order of emission is total and transitive.
pub proof fn lemma_emission_order(a: QueryModel, b: QueryModel, c: QueryModel)
    ensures
        emitted_no_later(a, b) || emitted_no_later(b, a),
        emitted_no_later(a, a),
        emitted_no_later(a, b) && emitted_no_later(b, c) ==> emitted_no_later(a, c),
{
}

impl MediaQuery {
    /// The breakpoint of the query.
    pub fn get_breakpoint(&self) -> (r: &usize)
        ensures
            *r as nat == breakpoint_of(self@),
    {
        match self {
            MediaQuery::SuperiorTo(breakpoint, _) => breakpoint,
            MediaQuery::InferiorOrEqualTo(breakpoint) => breakpoint,
        }
    }

    /// Whether this query is emitted no later than `other`.
    pub fn emitted_no_later_than(&self, other: &MediaQuery) -> (r: bool)
        ensures
            r == emitted_no_later(self@, other@),
    {
        match (self, other) {
            (MediaQuery::InferiorOrEqualTo(a), MediaQuery::InferiorOrEqualTo(b)) => *a >= *b,
            (MediaQuery::InferiorOrEqualTo(_), MediaQuery::SuperiorTo(_, _)) => true,
            (MediaQuery::SuperiorTo(_, _), MediaQuery::InferiorOrEqualTo(_)) => false,
            (MediaQuery::SuperiorTo(a, _), MediaQuery::SuperiorTo(b, _)) => *a >= *b,
        }
    }

    /// Whether two queries are the same relation, breakpoint and value.
    pub fn same_as(&self, other: &MediaQuery) -> (r: bool)
        ensures
            r == (self@ == other@),
    {
        match (self, other) {
            (MediaQuery::InferiorOrEqualTo(a), MediaQuery::InferiorOrEqualTo(b)) => *a == *b,
            (MediaQuery::SuperiorTo(a, x), MediaQuery::SuperiorTo(b, y)) => *a == *b && x.eq(y),
            _ => false,
        }
    }
}

/// Whether `c` is an ASCII decimal digit.
pub open spec fn is_digit(c: char) -> bool {
    '0' <= c <= '9'
}

/// The number that a run of decimal digits writes.
pub open spec fn digits_value(d: Seq<char>) -> nat
    decreases d.len(),
{
    if d.len() == 0 {
        0
    } else {
        digits_value(d.drop_last()) * 10 + ((d.last() as u32 - '0' as u32) as nat)
    }
}

/// The breakpoint that an attribute name of the shape `layout@<digits>px`
/// declares, where the number fits a `usize`.
pub open spec fn breakpoint_named(s: Seq<char>) -> Option<nat> {
    let digits = s.subrange(7, s.len() - 2);
    if has_prefix(s, "layout@"@) && s.len() > 9 && s.skip(s.len() - 2) == "px"@
        && forall|k: int| 0 <= k < digits.len() ==> is_digit(#[trigger] digits[k])
        && digits_value(digits) <= usize::MAX {
        Some(digits_value(digits))
    } else {
        None
    }
}

/// The breakpoint of an attribute named `layout@<digits>px`; `None` for any
/// other name, or where the number does not fit a `usize`.
pub fn extract_breakpoint(input: &str) -> (r: Option<usize>)
    ensures
        match r {
            Some(b) => breakpoint_named(input@) == Some(b as nat),
            None => breakpoint_named(input@) is None,
        },
{
    proof {
        reveal_strlit("layout@");
        reveal_strlit("px");
    }
    let chars = chars_of(input);
    let n = chars.len();
    if !starts_with(input, "layout@") || n <= 9 || chars[n - 2] != 'p' || chars[n - 1] != 'x' {
        proof {
            if has_prefix(input@, "layout@"@) && n > 9 {
                assert(input@.skip(n - 2)[0] == chars@[n - 2]);
                assert(input@.skip(n - 2)[1] == chars@[n - 1]);
            }
        }
        return None;
    }
    assert(input@.skip(n - 2) =~= "px"@);
    let ghost digits = input@.subrange(7, n - 2);
    let mut value: usize = 0;
    let mut i: usize = 7;
    while i < n - 2
        invariant
            chars@ == input@,
            n == chars.len(),
            n > 9,
            7 <= i <= n - 2,
            digits == input@.subrange(7, n - 2),
            forall|k: int| 0 <= k < i - 7 ==> is_digit(#[trigger] digits[k]),
            value as nat == digits_value(digits.take(i - 7)),
        decreases n - 2 - i,
    {
        let c = chars[i];
        if !('0' <= c && c <= '9') {
            assert(!is_digit(digits[i - 7]));
            return None;
        }
        let d = (c as u32 - '0' as u32) as usize;
        assert(digits.take(i - 7 + 1).drop_last() =~= digits.take(i - 7));
        match value.checked_mul(10) {
            Some(m) => match m.checked_add(d) {
                Some(v) => {
                    value = v;
                },
                None => {
                    proof {
                        lemma_digits_grow(digits, i - 7 + 1);
                    }
                    return None;
                },
            },
            None => {
                proof {
                    lemma_digits_grow(digits, i - 7 + 1);
                }
                return None;
            },
        }
        i = i + 1;
    }
    assert(digits.take(n - 2 - 7) =~= digits);
    Some(value)
}

/// A longer run of digits writes no smaller a number.
proof fn lemma_digits_grow(d: Seq<char>, k: int)
    requires
        0 <= k <= d.len(),
    ensures
        digits_value(d.take(k)) <= digits_value(d),
    decreases d.len() - k,
{
    if k < d.len() {
        assert(d.take(k + 1).drop_last() =~= d.take(k));
        assert(digits_value(d.take(k)) <= digits_value(d.take(k + 1)));
        lemma_digits_grow(d, k + 1);
    } else {
        assert(d.take(k) =~= d);
    }
}

/// The decimal digits that write `n`.
pub open spec fn decimal(n: nat) -> Seq<char>
    decreases n,
{
    if n < 10 {
        digit_text(n)
    } else {
        decimal(n / 10) + digit_text(n % 10)
    }
}

/// The one-digit text of `d`.
pub open spec fn digit_text(d: nat) -> Seq<char> {
    if d == 0 {
        "0"@
    } else if d == 1 {
        "1"@
    } else if d == 2 {
        "2"@
    } else if d == 3 {
        "3"@
    } else if d == 4 {
        "4"@
    } else if d == 5 {
        "5"@
    } else if d == 6 {
        "6"@
    } else if d == 7 {
        "7"@
    } else if d == 8 {
        "8"@
    } else {
        "9"@
    }
}

fn digit_str(d: usize) -> (r: &'static str)
    requires
        d < 10,
    ensures
        r@ == digit_text(d as nat),
{
    if d == 0 {
        "0"
    } else if d == 1 {
        "1"
    } else if d == 2 {
        "2"
    } else if d == 3 {
        "3"
    } else if d == 4 {
        "4"
    } else if d == 5 {
        "5"
    } else if d == 6 {
        "6"
    } else if d == 7 {
        "7"
    } else if d == 8 {
        "8"
    } else {
        "9"
    }
}

/// Appends the decimal digits of `n` to `out`.
pub fn push_decimal(out: &mut String, n: usize)
    ensures
        final(out)@ == old(out)@ + decimal(n as nat),
    decreases n,
{
    if n < 10 {
        out.append(digit_str(n));
    } else {
        push_decimal(out, n / 10);
        out.append(digit_str(n % 10));
        assert(final(out)@ =~= old(out)@ + decimal(n as nat));
    }
}

} // verus!
