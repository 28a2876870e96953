//! The scanner: one pass of a character state machine over the markup text,
//! which records positions and hands each finished tag to the builder.
use vstd::prelude::*;

use crate::builder::{generate, generated, ElementModel, LayoutElements};
use crate::media_query::{breakpoint_named, extract_breakpoint, MediaQuery, QueryModel};
use crate::text::{
    alphabetic, byte_len, byte_position, byte_span, char_width, chars_of, is_alphabetic,
    is_whitespace, lemma_byte_position_step, opt_str, slice_bytes, str_eq, white_space,
};
use vstd::utf8::encode_utf8;

verus! {

/// The states of the scanner.
#[derive(Debug, Clone, Copy, PartialEq, Eq, Structural)]
pub enum State {
    Resting,
    InsideTag,
    ReadingTagName,
    AfterTagName,
    ReadingAttributeName,
    WaitingAttributeValue,
    ReadingAttributeValue,
}

/// The state that character `c` moves the scanner to from `s`; `None` where
/// it stays.
pub open spec fn next_state(s: State, c: char) -> Option<State> {
    match s {
        State::Resting => if c == '<' {
            Some(State::InsideTag)
        } else {
            None
        },
        State::InsideTag => if alphabetic(c) {
            Some(State::ReadingTagName)
        } else {
            None
        },
        State::ReadingTagName => if white_space(c) {
            Some(State::AfterTagName)
        } else if c == '>' {
            Some(State::Resting)
        } else {
            None
        },
        State::AfterTagName => if alphabetic(c) {
            Some(State::ReadingAttributeName)
        } else if c == '>' {
            Some(State::Resting)
        } else {
            None
        },
        State::ReadingAttributeName => if white_space(c) {
            Some(State::AfterTagName)
        } else if c == '=' {
            Some(State::WaitingAttributeValue)
        } else if c == '>' {
            Some(State::Resting)
        } else {
            None
        },
        State::WaitingAttributeValue => if c == '"' {
            Some(State::ReadingAttributeValue)
        } else {
            None
        },
        State::ReadingAttributeValue => if c == '"' {
            Some(State::AfterTagName)
        } else {
            None
        },
    }
}

/// What the scanner holds, as plain values.
pub struct ScanState {
    pub state: State,
    pub tag_name_start: Option<usize>,
    pub tag_name_end: Option<usize>,
    pub attribute_name_start: Option<usize>,
    pub attribute_name_end: Option<usize>,
    pub layout_attribute_value_start: Option<usize>,
    pub layout_attribute_value_end: Option<usize>,
    pub layout_breakpoint_attribute_value_start: Option<usize>,
    pub layout_breakpoint_attribute_value_end: Option<usize>,
    pub biggest_breakpoint: Option<usize>,
    pub biggest_breakpoint_value: Option<Seq<char>>,
}

/// The byte position just before `p`, where there is one.
pub open spec fn before(p: int) -> Option<usize> {
    if p > 0 {
        Some((p - 1) as usize)
    } else {
        None
    }
}

/// The characters from byte `start` to byte `end`, both included, where both
/// are recorded and delimit characters of the text.
pub open spec fn span(text: Seq<char>, start: Option<usize>, end: Option<usize>) -> Option<
    Seq<char>,
> {
    match (start, end) {
        (Some(s), Some(e)) => byte_span(text, s as int, e + 1),
        _ => None,
    }
}

/// The recorded tag name.
pub open spec fn tag_name_of(m: ScanState, text: Seq<char>) -> Option<Seq<char>> {
    span(text, m.tag_name_start, m.tag_name_end)
}

/// The recorded attribute name.
pub open spec fn attribute_name_of(m: ScanState, text: Seq<char>) -> Option<Seq<char>> {
    span(text, m.attribute_name_start, m.attribute_name_end)
}

/// The recorded value of the base `layout` attribute; an end at or before
/// the start means no value.
pub open spec fn layout_value_of(m: ScanState, text: Seq<char>) -> Option<Seq<char>> {
    match (m.layout_attribute_value_start, m.layout_attribute_value_end) {
        (Some(s), Some(e)) => if s < e {
            byte_span(text, s as int, e + 1)
        } else {
            None
        },
        _ => None,
    }
}

/// The recorded value of the last breakpoint attribute; an end at or before
/// the start means an empty value, which resets.
pub open spec fn breakpoint_value_of(m: ScanState, text: Seq<char>) -> Option<Seq<char>> {
    match (m.layout_breakpoint_attribute_value_start, m.layout_breakpoint_attribute_value_end) {
        (Some(s), Some(e)) => if e <= s {
            Some(Seq::empty())
        } else {
            byte_span(text, s as int, e + 1)
        },
        _ => None,
    }
}

/// Whether breakpoint `b` is larger than any recorded so far.
pub open spec fn is_new_biggest(biggest: Option<usize>, b: usize) -> bool {
    match biggest {
        Some(x) => b > x,
        None => true,
    }
}

/// The scanner after a breakpoint attribute with breakpoint `b` and value `v`:
/// the largest breakpoint and its value are kept.
pub open spec fn track(m: ScanState, b: usize, v: Seq<char>) -> ScanState {
    if is_new_biggest(m.biggest_breakpoint, b) {
        ScanState { biggest_breakpoint: Some(b), biggest_breakpoint_value: Some(v), ..m }
    } else {
        m
    }
}

/// The scanner after breakpoint attributes `ps` (breakpoint and value), in
/// order.
pub open spec fn track_all(m: ScanState, ps: Seq<(usize, Seq<char>)>) -> ScanState
    decreases ps.len(),
{
    if ps.len() == 0 {
        m
    } else {
        track(track_all(m, ps.drop_last()), ps.last().0, ps.last().1)
    }
}

/// No two of `ps` have the same breakpoint.
pub open spec fn distinct_breakpoints(ps: Seq<(usize, Seq<char>)>) -> bool {
    forall|i: int, j: int| 0 <= i < ps.len() && 0 <= j < ps.len() && i != j ==> ps[i].0 != ps[j].0
}

proof fn lemma_track_all_max(m: ScanState, ps: Seq<(usize, Seq<char>)>)
    requires
        m.biggest_breakpoint is None,
        distinct_breakpoints(ps),
    ensures
        ps.len() == 0 ==> track_all(m, ps) == m,
        ps.len() > 0 ==> exists|k: int|
            0 <= k < ps.len() && track_all(m, ps) == (ScanState {
                biggest_breakpoint: Some(ps[k].0),
                biggest_breakpoint_value: Some(ps[k].1),
                ..m
            }) && forall|j: int| 0 <= j < ps.len() ==> ps[j].0 <= ps[k].0,
    decreases ps.len(),
{
    if ps.len() > 0 {
        let rest = ps.drop_last();
        assert(distinct_breakpoints(rest));
        lemma_track_all_max(m, rest);
        if rest.len() == 0 {
            assert(forall|j: int| 0 <= j < ps.len() ==> (#[trigger] ps[j]).0 <= ps[0].0);
        } else {
            let k = choose|k: int|
                0 <= k < rest.len() && track_all(m, rest) == (ScanState {
                    biggest_breakpoint: Some(rest[k].0),
                    biggest_breakpoint_value: Some(rest[k].1),
                    ..m
                }) && forall|j: int| 0 <= j < rest.len() ==> rest[j].0 <= rest[k].0;
            assert(ps[k] == rest[k]);
            if ps.last().0 > rest[k].0 {
                assert forall|j: int| 0 <= j < ps.len() implies (#[trigger] ps[j]).0 <= ps[ps.len()
                    - 1].0 by {
                    if j < ps.len() - 1 {
                        assert(ps[j] == rest[j]);
                    }
                }
            } else {
                assert forall|j: int| 0 <= j < ps.len() implies (#[trigger] ps[j]).0 <= ps[k].0 by {
                    if j < ps.len() - 1 {
                        assert(ps[j] == rest[j]);
                    }
                }
            }
        }
    }
}

/// The order in which a tag's breakpoint attributes come does not matter:
/// two orders of the same attributes, with distinct breakpoints, leave the
/// same largest breakpoint and the same value for the "above" query (for
/// instance, the order of the text and ascending order).
pub proof fn lemma_breakpoint_order_independent(
    m: ScanState,
    ps: Seq<(usize, Seq<char>)>,
    qs: Seq<(usize, Seq<char>)>,
)
    requires
        m.biggest_breakpoint is None,
        distinct_breakpoints(ps),
        distinct_breakpoints(qs),
        forall|p: (usize, Seq<char>)| ps.contains(p) <==> qs.contains(p),
    ensures
        track_all(m, ps) == track_all(m, qs),
{
    lemma_track_all_max(m, ps);
    lemma_track_all_max(m, qs);
    if ps.len() > 0 {
        assert(ps.contains(ps[0]));
        assert(qs.len() > 0);
        let k = choose|k: int|
            0 <= k < ps.len() && track_all(m, ps) == (ScanState {
                biggest_breakpoint: Some(ps[k].0),
                biggest_breakpoint_value: Some(ps[k].1),
                ..m
            }) && forall|j: int| 0 <= j < ps.len() ==> ps[j].0 <= ps[k].0;
        let l = choose|l: int|
            0 <= l < qs.len() && track_all(m, qs) == (ScanState {
                biggest_breakpoint: Some(qs[l].0),
                biggest_breakpoint_value: Some(qs[l].1),
                ..m
            }) && forall|j: int| 0 <= j < qs.len() ==> qs[j].0 <= qs[l].0;
        assert(ps.contains(ps[k]));
        assert(qs.contains(ps[k]));
        let a = choose|a: int| 0 <= a < qs.len() && qs[a] == ps[k];
        assert(qs.contains(qs[l]));
        assert(ps.contains(qs[l]));
        let b = choose|b: int| 0 <= b < ps.len() && ps[b] == qs[l];
        assert(ps[k].0 == qs[l].0);
        assert(a == l);
    } else {
        if qs.len() > 0 {
            assert(qs.contains(qs[0]));
        }
    }
}

/// The query that the base attribute is scoped to: above the largest
/// breakpoint, with that breakpoint's value, where the tag had one.
pub open spec fn above_query(m: ScanState) -> Option<QueryModel> {
    match (m.biggest_breakpoint, m.biggest_breakpoint_value) {
        (Some(b), Some(v)) => Some(QueryModel::Above(b as nat, v)),
        _ => None,
    }
}

/// The scanner with every recorded position and breakpoint cleared.
pub open spec fn cleared(m: ScanState) -> ScanState {
    ScanState {
        state: m.state,
        tag_name_start: None,
        tag_name_end: None,
        attribute_name_start: None,
        attribute_name_end: None,
        layout_attribute_value_start: None,
        layout_attribute_value_end: None,
        layout_breakpoint_attribute_value_start: None,
        layout_breakpoint_attribute_value_end: None,
        biggest_breakpoint: None,
        biggest_breakpoint_value: None,
    }
}

/// An opening quote at byte `p`: the value of a `layout` or `layout@<N>px`
/// attribute starts after it.
pub open spec fn opening_quote(m: ScanState, text: Seq<char>, p: int) -> ScanState {
    match attribute_name_of(m, text) {
        Some(n) => if n == "layout"@ {
            ScanState { layout_attribute_value_start: Some((p + 1) as usize), ..m }
        } else if breakpoint_named(n) is Some {
            ScanState { layout_breakpoint_attribute_value_start: Some((p + 1) as usize), ..m }
        } else {
            m
        },
        None => m,
    }
}

/// A closing quote at byte `p`: the value ends before it; a breakpoint
/// attribute gives its elements at once, scoped "at most" its breakpoint.
pub open spec fn closing_quote(m: ScanState, text: Seq<char>, p: int) -> (
    ScanState,
    Set<ElementModel>,
) {
    match attribute_name_of(m, text) {
        Some(n) => if n == "layout"@ {
            (ScanState { layout_attribute_value_end: before(p), ..m }, Set::empty())
        } else {
            match breakpoint_named(n) {
                Some(b) => {
                    let m1 = ScanState { layout_breakpoint_attribute_value_end: before(p), ..m };
                    match breakpoint_value_of(m1, text) {
                        Some(v) => (
                            track(m1, b as usize, v),
                            match tag_name_of(m1, text) {
                                Some(t) => generated(t, Some(v), Some(QueryModel::AtMost(b))),
                                None => Set::empty(),
                            },
                        ),
                        None => (m1, Set::empty()),
                    }
                },
                None => (m, Set::empty()),
            }
        },
        None => (m, Set::empty()),
    }
}

/// Leaving a tag at byte `p`: the tag gives the elements of its base
/// attribute, scoped above its largest breakpoint if it had one, and
/// everything recorded is cleared.
pub open spec fn leave_tag(m: ScanState, text: Seq<char>, p: int) -> (ScanState, Set<ElementModel>) {
    let m1 = if m.state == State::ReadingTagName {
        ScanState { tag_name_end: before(p), ..m }
    } else {
        m
    };
    (
        cleared(m1),
        match tag_name_of(m1, text) {
            Some(t) => generated(t, layout_value_of(m1, text), above_query(m1)),
            None => Set::empty(),
        },
    )
}

/// What is recorded, and which elements are given, when the scanner moves
/// to `next` on the character at byte `p`.
pub open spec fn on_transition(m: ScanState, next: State, text: Seq<char>, p: int) -> (
    ScanState,
    Set<ElementModel>,
) {
    if next == State::ReadingTagName {
        (ScanState { tag_name_start: Some(p as usize), ..m }, Set::empty())
    } else if m.state == State::ReadingTagName && next == State::AfterTagName {
        (ScanState { tag_name_end: before(p), ..m }, Set::empty())
    } else if next == State::ReadingAttributeName {
        (ScanState { attribute_name_start: Some(p as usize), ..m }, Set::empty())
    } else if m.state == State::ReadingAttributeName && (next == State::AfterTagName || next
        == State::WaitingAttributeValue) {
        (ScanState { attribute_name_end: before(p), ..m }, Set::empty())
    } else if next == State::ReadingAttributeValue {
        (opening_quote(m, text, p), Set::empty())
    } else if m.state == State::ReadingAttributeValue && next == State::AfterTagName {
        closing_quote(m, text, p)
    } else if next == State::Resting {
        leave_tag(m, text, p)
    } else {
        (m, Set::empty())
    }
}

/// One step of the scanner, on character `i`.
pub open spec fn scan_step(m: ScanState, text: Seq<char>, i: int) -> (ScanState, Set<ElementModel>) {
    match next_state(m.state, text[i]) {
        None => (m, Set::empty()),
        Some(next) => {
            let (m1, e) = on_transition(m, next, text, byte_position(text, i) as int);
            (ScanState { state: next, ..m1 }, e)
        },
    }
}

/// The scanner after the first `n` characters of `text`, and the elements
/// given on the way.
pub open spec fn scan(m: ScanState, text: Seq<char>, n: int) -> (ScanState, Set<ElementModel>)
    decreases n,
{
    if n <= 0 {
        (m, Set::empty())
    } else {
        let (m1, e1) = scan(m, text, n - 1);
        let (m2, e2) = scan_step(m1, text, n - 1);
        (m2, e1.union(e2))
    }
}

/// The scanner over one markup text. Positions are byte offsets into the
/// text; an end position is the last byte included.
pub struct Parser<'a> {
    pub state: State,
    pub text: &'a str,
    /// The characters of `text`, read once.
    pub chars: Vec<char>,
    pub tag_name_start: Option<usize>,
    pub tag_name_end: Option<usize>,
    pub attribute_name_start: Option<usize>,
    pub attribute_name_end: Option<usize>,
    pub layout_attribute_value_start: Option<usize>,
    pub layout_attribute_value_end: Option<usize>,
    pub layout_breakpoint_attribute_value_start: Option<usize>,
    pub layout_breakpoint_attribute_value_end: Option<usize>,
    pub biggest_breakpoint: Option<usize>,
    pub biggest_breakpoint_value: Option<&'a str>,
}

impl<'a> View for Parser<'a> {
    type V = ScanState;

    open spec fn view(&self) -> ScanState {
        ScanState {
            state: self.state,
            tag_name_start: self.tag_name_start,
            tag_name_end: self.tag_name_end,
            attribute_name_start: self.attribute_name_start,
            attribute_name_end: self.attribute_name_end,
            layout_attribute_value_start: self.layout_attribute_value_start,
            layout_attribute_value_end: self.layout_attribute_value_end,
            layout_breakpoint_attribute_value_start: self.layout_breakpoint_attribute_value_start,
            layout_breakpoint_attribute_value_end: self.layout_breakpoint_attribute_value_end,
            biggest_breakpoint: self.biggest_breakpoint,
            biggest_breakpoint_value: opt_str(self.biggest_breakpoint_value),
        }
    }
}

impl<'a> Parser<'a> {
    /// The characters of the text being scanned.
    pub open spec fn text_view(&self) -> Seq<char> {
        self.text@
    }

    /// The parser's copy of the text's characters matches the text, whose
    /// length in bytes is a `usize`.
    pub open spec fn wf(&self) -> bool {
        &&& self.chars@ == self.text@
        &&& encode_utf8(self.text@).len() <= usize::MAX
    }

    /// A scanner at rest at the start of `text`, with nothing recorded.
    pub fn new(text: &'a str) -> (r: Self)
        ensures
            r.wf(),
            r.text_view() == text@,
            r@ == cleared(r@),
            r.state == State::Resting,
    {
        // the text's length in bytes fits a usize
        let _size = byte_len(text);
        Parser {
            state: State::Resting,
            text,
            chars: chars_of(text),
            tag_name_start: None,
            tag_name_end: None,
            attribute_name_start: None,
            attribute_name_end: None,
            layout_attribute_value_start: None,
            layout_attribute_value_end: None,
            layout_breakpoint_attribute_value_start: None,
            layout_breakpoint_attribute_value_end: None,
            biggest_breakpoint: None,
            biggest_breakpoint_value: None,
        }
    }

    /// Clears every recorded position and breakpoint.
    pub fn reset_indexes(&mut self)
        ensures
            final(self)@ == cleared(old(self)@),
            final(self).text == old(self).text,
            final(self).chars == old(self).chars,
    {
        self.tag_name_start = None;
        self.tag_name_end = None;
        self.attribute_name_start = None;
        self.attribute_name_end = None;
        self.layout_attribute_value_start = None;
        self.layout_attribute_value_end = None;
        self.layout_breakpoint_attribute_value_start = None;
        self.layout_breakpoint_attribute_value_end = None;
        self.biggest_breakpoint = None;
        self.biggest_breakpoint_value = None;
    }

    fn span(&self, start: Option<usize>, end: Option<usize>) -> (r: Option<&'a str>)
        requires
            self.wf(),
        ensures
            opt_str(r) == span(self.text_view(), start, end),
    {
        match (start, end) {
            (Some(s), Some(e)) => {
                if e < byte_len(self.text) {
                    slice_bytes(self.text, s, e + 1)
                } else {
                    None
                }
            },
            _ => None,
        }
    }

    /// The recorded tag name.
    pub fn tag_name(&self) -> (r: Option<&'a str>)
        requires
            self.wf(),
        ensures
            opt_str(r) == tag_name_of(self@, self.text_view()),
    {
        self.span(self.tag_name_start, self.tag_name_end)
    }

    /// The recorded tag name, where there is one.
    pub fn tag_name_new(&self) -> (r: &'a str)
        requires
            self.wf(),
            tag_name_of(self@, self.text_view()) is Some,
        ensures
            Some(r@) == tag_name_of(self@, self.text_view()),
    {
        match self.tag_name() {
            Some(t) => t,
            None => "",
        }
    }

    /// The recorded attribute name.
    pub fn attribute_name(&self) -> (r: Option<&'a str>)
        requires
            self.wf(),
        ensures
            opt_str(r) == attribute_name_of(self@, self.text_view()),
    {
        self.span(self.attribute_name_start, self.attribute_name_end)
    }

    /// The recorded value of the base `layout` attribute; `None` where it is
    /// empty.
    pub fn layout_attribute_value(&self) -> (r: Option<&'a str>)
        requires
            self.wf(),
        ensures
            opt_str(r) == layout_value_of(self@, self.text_view()),
    {
        match (self.layout_attribute_value_start, self.layout_attribute_value_end) {
            (Some(s), Some(e)) => {
                if s < e && e < byte_len(self.text) {
                    slice_bytes(self.text, s, e + 1)
                } else {
                    None
                }
            },
            _ => None,
        }
    }

    /// The recorded value of the last breakpoint attribute; the empty string
    /// where it is empty.
    pub fn layout_breakpoint_attribute_value(&self) -> (r: Option<&'a str>)
        requires
            self.wf(),
        ensures
            opt_str(r) == breakpoint_value_of(self@, self.text_view()),
    {
        match (
            self.layout_breakpoint_attribute_value_start,
            self.layout_breakpoint_attribute_value_end,
        ) {
            (Some(s), Some(e)) => {
                if e <= s {
                    proof {
                        reveal_strlit("");
                    }
                    Some("")
                } else if e < byte_len(self.text) {
                    slice_bytes(self.text, s, e + 1)
                } else {
                    None
                }
            },
            _ => None,
        }
    }

    /// Records breakpoint `breakpoint` as the largest of the tag where it is
    /// larger than any recorded so far; returns whether it was.
    pub fn update_biggest_breakpoint(&mut self, breakpoint: usize) -> (r: bool)
        ensures
            r == is_new_biggest(old(self).biggest_breakpoint, breakpoint),
            final(self)@ == (ScanState {
                biggest_breakpoint: if r {
                    Some(breakpoint)
                } else {
                    old(self).biggest_breakpoint
                },
                ..old(self)@
            }),
            final(self).text == old(self).text,
            final(self).chars == old(self).chars,
    {
        match self.biggest_breakpoint {
            Some(biggest) => {
                if breakpoint > biggest {
                    self.biggest_breakpoint = Some(breakpoint);
                    true
                } else {
                    false
                }
            },
            None => {
                self.biggest_breakpoint = Some(breakpoint);
                true
            },
        }
    }

    /// The state that `c` moves the scanner to; `None` where it stays.
    pub fn transition(&self, c: char) -> (r: Option<State>)
        ensures
            r == next_state(self.state, c),
    {
        match self.state {
            State::Resting => if c == '<' {
                Some(State::InsideTag)
            } else {
                None
            },
            State::InsideTag => if is_alphabetic(c) {
                Some(State::ReadingTagName)
            } else {
                None
            },
            State::ReadingTagName => if is_whitespace(c) {
                Some(State::AfterTagName)
            } else if c == '>' {
                Some(State::Resting)
            } else {
                None
            },
            State::AfterTagName => if is_alphabetic(c) {
                Some(State::ReadingAttributeName)
            } else if c == '>' {
                Some(State::Resting)
            } else {
                None
            },
            State::ReadingAttributeName => if is_whitespace(c) {
                Some(State::AfterTagName)
            } else if c == '=' {
                Some(State::WaitingAttributeValue)
            } else if c == '>' {
                Some(State::Resting)
            } else {
                None
            },
            State::WaitingAttributeValue => if c == '"' {
                Some(State::ReadingAttributeValue)
            } else {
                None
            },
            State::ReadingAttributeValue => if c == '"' {
                Some(State::AfterTagName)
            } else {
                None
            },
        }
    }

    fn opening_quote(&mut self, pos: usize)
        requires
            old(self).wf(),
            pos < encode_utf8(old(self).text_view()).len(),
        ensures
            final(self)@ == opening_quote(old(self)@, old(self).text_view(), pos as int),
            final(self).text == old(self).text,
            final(self).chars == old(self).chars,
    {
        match self.attribute_name() {
            Some(name) => {
                if str_eq(name, "layout") {
                    self.layout_attribute_value_start = Some(pos + 1);
                } else if extract_breakpoint(name).is_some() {
                    self.layout_breakpoint_attribute_value_start = Some(pos + 1);
                }
            },
            None => {},
        }
    }

    fn closing_quote(&mut self, pos: usize, elements: &mut LayoutElements<'a>)
        requires
            old(self).wf(),
            old(elements).wf(),
            pos < encode_utf8(old(self).text_view()).len(),
        ensures
            final(self)@ == closing_quote(old(self)@, old(self).text_view(), pos as int).0,
            final(elements)@ == old(elements)@.union(
                closing_quote(old(self)@, old(self).text_view(), pos as int).1,
            ),
            final(elements).wf(),
            final(self).text == old(self).text,
            final(self).chars == old(self).chars,
    {
        let ghost m = self@;
        let ghost text = self.text_view();
        match self.attribute_name() {
            Some(name) => {
                if str_eq(name, "layout") {
                    self.layout_attribute_value_end = before_position(pos);
                } else {
                    match extract_breakpoint(name) {
                        Some(breakpoint) => {
                            self.layout_breakpoint_attribute_value_end = before_position(pos);
                            match self.layout_breakpoint_attribute_value() {
                                Some(value) => {
                                    let tag = self.tag_name();
                                    if self.update_biggest_breakpoint(breakpoint) {
                                        self.biggest_breakpoint_value = Some(value);
                                    }
                                    match tag {
                                        Some(t) => generate(
                                            t,
                                            Some(value),
                                            Some(MediaQuery::InferiorOrEqualTo(breakpoint)),
                                            elements,
                                        ),
                                        None => {
                                            assert(old(elements)@.union(Set::empty())
                                                =~= old(elements)@);
                                        },
                                    }
                                },
                                None => {
                                    assert(old(elements)@.union(Set::empty()) =~= old(elements)@);
                                },
                            }
                        },
                        None => {
                            assert(old(elements)@.union(Set::empty()) =~= old(elements)@);
                        },
                    }
                }
            },
            None => {},
        }
        proof {
            if !(closing_quote(m, text, pos as int).1 =~= Set::empty()) {
            } else {
                assert(old(elements)@.union(Set::empty()) =~= old(elements)@);
            }
        }
    }

    fn leave_tag(&mut self, pos: usize, elements: &mut LayoutElements<'a>)
        requires
            old(self).wf(),
            old(elements).wf(),
            pos < encode_utf8(old(self).text_view()).len(),
        ensures
            final(self)@ == leave_tag(old(self)@, old(self).text_view(), pos as int).0,
            final(elements)@ == old(elements)@.union(
                leave_tag(old(self)@, old(self).text_view(), pos as int).1,
            ),
            final(elements).wf(),
            final(self).text == old(self).text,
            final(self).chars == old(self).chars,
    {
        if self.state == State::ReadingTagName {
            self.tag_name_end = before_position(pos);
        }
        match self.tag_name() {
            Some(t) => {
                let layout_value = self.layout_attribute_value();
                let query = match (self.biggest_breakpoint, self.biggest_breakpoint_value) {
                    (Some(b), Some(v)) => Some(MediaQuery::SuperiorTo(b, v.to_owned())),
                    _ => None,
                };
                generate(t, layout_value, query, elements);
            },
            None => {
                assert(old(elements)@.union(Set::empty()) =~= old(elements)@);
            },
        }
        self.reset_indexes();
    }

    fn on_transition(&mut self, next: State, pos: usize, elements: &mut LayoutElements<'a>)
        requires
            old(self).wf(),
            old(elements).wf(),
            pos < encode_utf8(old(self).text_view()).len(),
        ensures
            final(self)@ == on_transition(old(self)@, next, old(self).text_view(), pos as int).0,
            final(elements)@ == old(elements)@.union(
                on_transition(old(self)@, next, old(self).text_view(), pos as int).1,
            ),
            final(elements).wf(),
            final(self).text == old(self).text,
            final(self).chars == old(self).chars,
    {
        if next == State::ReadingTagName {
            self.tag_name_start = Some(pos);
        } else if self.state == State::ReadingTagName && next == State::AfterTagName {
            self.tag_name_end = before_position(pos);
        } else if next == State::ReadingAttributeName {
            self.attribute_name_start = Some(pos);
        } else if self.state == State::ReadingAttributeName && (next == State::AfterTagName || next
            == State::WaitingAttributeValue) {
            self.attribute_name_end = before_position(pos);
        } else if next == State::ReadingAttributeValue {
            self.opening_quote(pos);
        } else if self.state == State::ReadingAttributeValue && next == State::AfterTagName {
            self.closing_quote(pos, elements);
            return;
        } else if next == State::Resting {
            self.leave_tag(pos, elements);
            return;
        }
        assert(old(elements)@.union(Set::empty()) =~= old(elements)@);
    }

    /// Scans the whole text from the current state, adding to `elements`
    /// what each tag gives: the elements of a breakpoint attribute as soon as
    /// it closes, those of the base attribute when the tag closes.
    pub fn parse(&mut self, elements: &mut LayoutElements<'a>)
        requires
            old(self).wf(),
            old(elements).wf(),
        ensures
            final(self).wf(),
            final(self).text == old(self).text,
            final(self)@ == scan(old(self)@, old(self).text_view(), old(self).text_view().len() as int).0,
            final(elements).wf(),
            final(elements)@ == old(elements)@.union(
                scan(old(self)@, old(self).text_view(), old(self).text_view().len() as int).1,
            ),
    {
        let ghost m0 = self@;
        let ghost e0 = elements@;
        let ghost text = self.text_view();
        let n = self.chars.len();
        let mut i: usize = 0;
        let mut pos: usize = 0;
        assert(e0.union(Set::empty()) =~= e0);
        assert(text.take(0) =~= Seq::<char>::empty());
        assert(byte_position(text, 0) == 0);
        while i < n
            invariant
                self.wf(),
                self.text == old(self).text,
                self.text_view() == text,
                n == self.chars.len(),
                n == text.len(),
                i <= n,
                pos == byte_position(text, i as int),
                elements.wf(),
                self@ == scan(m0, text, i as int).0,
                elements@ == e0.union(scan(m0, text, i as int).1),
            decreases n - i,
        {
            let c = self.chars[i];
            proof {
                lemma_byte_position_step(text, i as int);
            }
            match self.transition(c) {
                Some(next) => {
                    self.on_transition(next, pos, elements);
                    self.state = next;
                    assert(elements@ =~= e0.union(scan(m0, text, i + 1).1));
                },
                None => {
                    assert(elements@ =~= e0.union(scan(m0, text, i + 1).1));
                },
            }
            pos = pos + char_width(c);
            i = i + 1;
        }
    }
}

/// The position just before `i`, where there is one.
fn before_position(i: usize) -> (r: Option<usize>)
    ensures
        r == before(i as int),
{
    if i > 0 {
        Some(i - 1)
    } else {
        None
    }
}

} // verus!
