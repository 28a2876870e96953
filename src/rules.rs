//! The rendered rules, global and per media query, and their assembly into
//! one CSS text.
use vstd::prelude::*;

use crate::media_query::{decimal, emitted_no_later, push_decimal, MediaQuery, QueryModel};
use crate::text::{replace_all, replaced};

verus! {

/// Rendered rule texts, each held once, in the order they were first added.
pub struct RuleSet {
    rules: Vec<String>,
}

impl View for RuleSet {
    type V = Seq<Seq<char>>;

    closed spec fn view(&self) -> Seq<Seq<char>> {
        self.rules@.map_values(|r: String| r@)
    }
}

impl RuleSet {
    /// No rule text is held twice.
    pub open spec fn wf(&self) -> bool {
        self@.no_duplicates()
    }

    /// An empty set.
    pub fn new() -> (r: Self)
        ensures
            r.wf(),
            r@ == Seq::<Seq<char>>::empty(),
    {
        let r = RuleSet { rules: Vec::new() };
        assert(r@ =~= Seq::<Seq<char>>::empty());
        r
    }

    /// How many rules are held.
    pub fn len(&self) -> (r: usize)
        ensures
            r == self@.len(),
    {
        self.rules.len()
    }

    /// The rule at position `i`.
    pub fn get(&self, i: usize) -> (r: &String)
        requires
            i < self@.len(),
        ensures
            r@ == self@[i as int],
    {
        &self.rules[i]
    }

    /// Whether `rule` is held.
    pub fn contains(&self, rule: &str) -> (r: bool)
        ensures
            r == self@.contains(rule@),
    {
        let mut i: usize = 0;
        while i < self.rules.len()
            invariant
                i <= self.rules.len(),
                forall|k: int| 0 <= k < i ==> self@[k] != rule@,
            decreases self.rules.len() - i,
        {
            if crate::text::str_eq(self.rules[i].as_str(), rule) {
                assert(self@[i as int] == rule@);
                return true;
            }
            i = i + 1;
        }
        false
    }

    /// Adds `rule` unless it is held already; returns whether it was added.
    pub fn insert(&mut self, rule: String) -> (r: bool)
        requires
            old(self).wf(),
        ensures
            final(self).wf(),
            r == !old(self)@.contains(rule@),
            final(self)@ == with_rule(old(self)@, rule@),
    {
        if self.contains(rule.as_str()) {
            false
        } else {
            let ghost before = self@;
            let ghost v = rule@;
            self.rules.push(rule);
            assert(self@ =~= before.push(v));
            true
        }
    }
}

/// The rules `s` after adding `r`: unchanged where `r` is held already.
pub open spec fn with_rule(s: Seq<Seq<char>>, r: Seq<char>) -> Seq<Seq<char>> {
    if s.contains(r) {
        s
    } else {
        s.push(r)
    }
}

/// The rules `s` after adding each of `rs` in order.
pub open spec fn with_rules(s: Seq<Seq<char>>, rs: Seq<Seq<char>>) -> Seq<Seq<char>>
    decreases rs.len(),
{
    if rs.len() == 0 {
        s
    } else {
        with_rule(with_rules(s, rs.drop_last()), rs.last())
    }
}

/// Adding the same rule twice holds it once: the second addition changes
/// nothing.
pub proof fn lemma_rule_added_once(s: Seq<Seq<char>>, r: Seq<char>)
    ensures
        with_rule(with_rule(s, r), r) == with_rule(s, r),
        with_rule(s, r).contains(r),
{
    if !s.contains(r) {
        assert(s.push(r)[s.len() as int] == r);
    }
}

/// Rule sets keyed by media query, kept in the order of emission.
pub struct MediaQueryRules {
    entries: Vec<(MediaQuery, RuleSet)>,
}

impl View for MediaQueryRules {
    type V = Seq<(QueryModel, Seq<Seq<char>>)>;

    closed spec fn view(&self) -> Seq<(QueryModel, Seq<Seq<char>>)> {
        self.entries@.map_values(|e: (MediaQuery, RuleSet)| (e.0@, e.1@))
    }
}

/// Entries in the order of emission, each query once, each rule set without
/// a repeated rule.
pub open spec fn well_ordered(es: Seq<(QueryModel, Seq<Seq<char>>)>) -> bool {
    &&& forall|i: int, j: int|
        0 <= i < j < es.len() ==> emitted_no_later(#[trigger] es[i].0, #[trigger] es[j].0)
    &&& forall|i: int, j: int| 0 <= i < j < es.len() ==> #[trigger] es[i].0 != #[trigger] es[j].0
    &&& forall|i: int| 0 <= i < es.len() ==> (#[trigger] es[i]).1.no_duplicates()
}

/// Where an entry for a new query `q` goes: after every entry emitted no
/// later than it.
pub open spec fn slot_for(es: Seq<(QueryModel, Seq<Seq<char>>)>, q: QueryModel, p: int) -> bool {
    &&& 0 <= p <= es.len()
    &&& forall|i: int| 0 <= i < p ==> emitted_no_later(#[trigger] es[i].0, q)
    &&& forall|i: int| p <= i < es.len() ==> !emitted_no_later(#[trigger] es[i].0, q)
}

impl MediaQueryRules {
    /// The entries are well ordered.
    pub open spec fn wf(&self) -> bool {
        well_ordered(self@)
    }

    /// No entries.
    pub fn new() -> (r: Self)
        ensures
            r.wf(),
            r@ == Seq::<(QueryModel, Seq<Seq<char>>)>::empty(),
    {
        let r = MediaQueryRules { entries: Vec::new() };
        assert(r@ =~= Seq::<(QueryModel, Seq<Seq<char>>)>::empty());
        r
    }

    /// How many queries have rules.
    pub fn len(&self) -> (r: usize)
        ensures
            r == self@.len(),
    {
        self.entries.len()
    }

    /// The entry at position `i`.
    pub fn entry(&self, i: usize) -> (r: (&MediaQuery, &RuleSet))
        requires
            i < self@.len(),
        ensures
            r.0@ == self@[i as int].0,
            r.1@ == self@[i as int].1,
    {
        let e = &self.entries[i];
        (&e.0, &e.1)
    }

    /// The position of the entry for `q`, if there is one.
    pub fn position(&self, q: &MediaQuery) -> (r: Option<usize>)
        requires
            self.wf(),
        ensures
            match r {
                Some(k) => k < self@.len() && self@[k as int].0 == q@,
                None => forall|i: int| 0 <= i < self@.len() ==> self@[i].0 != q@,
            },
    {
        let mut i: usize = 0;
        while i < self.entries.len()
            invariant
                i <= self.entries.len(),
                forall|k: int| 0 <= k < i ==> self@[k].0 != q@,
            decreases self.entries.len() - i,
        {
            if self.entries[i].0.same_as(q) {
                return Some(i);
            }
            i = i + 1;
        }
        None
    }

    /// Adds `rule` to the rules of query `q`: to its entry where it has one,
    /// else to a new entry placed after every entry emitted no later than `q`.
    pub fn insert(&mut self, q: MediaQuery, rule: String)
        requires
            old(self).wf(),
        ensures
            final(self).wf(),
            match old(self).position_of(q@) {
                Some(k) => final(self)@ == old(self)@.update(
                    k,
                    (q@, if old(self)@[k].1.contains(rule@) {
                        old(self)@[k].1
                    } else {
                        old(self)@[k].1.push(rule@)
                    }),
                ),
                None => exists|p: int|
                    slot_for(old(self)@, q@, p) && final(self)@ == old(self)@.insert(
                        p,
                        (q@, seq![rule@]),
                    ),
            },
    {
        let ghost es = self@;
        match self.position(&q) {
            Some(k) => {
                proof {
                    self.lemma_position_of(k as int);
                }
                let mut e = self.entries.remove(k);
                assert(e.1@ == es[k as int].1);
                let ghost r = rule@;
                e.1.insert(rule);
                assert(e.1@ == if es[k as int].1.contains(r) {
                    es[k as int].1
                } else {
                    es[k as int].1.push(r)
                });
                self.entries.insert(k, e);
                assert(self@ =~= es.update(k as int, (q@, self@[k as int].1)));
                assert forall|i: int, j: int| 0 <= i < j < self@.len() implies emitted_no_later(
                    #[trigger] self@[i].0,
                    #[trigger] self@[j].0,
                ) && self@[i].0 != self@[j].0 by {
                    assert(self@[i].0 == es[i].0);
                    assert(self@[j].0 == es[j].0);
                }
            },
            None => {
                proof {
                    self.lemma_no_position(q@);
                }
                let mut p: usize = 0;
                while p < self.entries.len() && self.entries[p].0.emitted_no_later_than(&q)
                    invariant
                        self@ == es,
                        well_ordered(es),
                        p <= es.len(),
                        forall|i: int| 0 <= i < p ==> emitted_no_later(#[trigger] es[i].0, q@),
                    decreases self.entries.len() - p,
                {
                    p = p + 1;
                }
                assert forall|i: int| p <= i < es.len() implies !emitted_no_later(
                    #[trigger] es[i].0,
                    q@,
                ) by {
                    if i > p {
                        assert(emitted_no_later(es[p as int].0, es[i].0));
                        crate::media_query::lemma_emission_order(es[i].0, q@, es[p as int].0);
                    }
                }
                let mut set = RuleSet::new();
                let ghost r = rule@;
                set.insert(rule);
                let ghost fresh = set@;
                assert(fresh =~= seq![r]);
                self.entries.insert(p, (q, set));
                assert(self@ =~= es.insert(p as int, (q@, fresh)));
                assert(slot_for(es, q@, p as int));
                assert forall|i: int, j: int| 0 <= i < j < self@.len() implies emitted_no_later(
                    #[trigger] self@[i].0,
                    #[trigger] self@[j].0,
                ) by {
                    if j == p {
                    } else if i == p {
                        assert(self@[j] == es[j - 1]);
                        crate::media_query::lemma_emission_order(q@, es[j - 1].0, q@);
                    } else {
                        let a = if i < p { i } else { i - 1 };
                        let b = if j < p { j } else { j - 1 };
                        assert(self@[i] == es[a]);
                        assert(self@[j] == es[b]);
                    }
                }
                assert forall|i: int, j: int| 0 <= i < j < self@.len() implies #[trigger] self@[
                    i
                ].0 != #[trigger] self@[j].0 by {
                    let a = if i < p { i } else { i - 1 };
                    let b = if j < p { j } else { j - 1 };
                    if i != p && j != p {
                        assert(self@[i] == es[a]);
                        assert(self@[j] == es[b]);
                    } else if i == p {
                        assert(self@[j] == es[b]);
                    } else {
                        assert(self@[i] == es[a]);
                    }
                }
                assert forall|i: int| 0 <= i < self@.len() implies (#[trigger] self@[i]).1.no_duplicates() by {
                    if i < p {
                        assert(self@[i] == es[i]);
                    } else if i > p {
                        assert(self@[i] == es[i - 1]);
                    }
                }
            },
        }
    }

    /// The position of the entry for `q`, if there is one.
    pub open spec fn position_of(&self, q: QueryModel) -> Option<int> {
        if exists|i: int| 0 <= i < self@.len() && self@[i].0 == q {
            Some(choose|i: int| 0 <= i < self@.len() && self@[i].0 == q)
        } else {
            None
        }
    }

    proof fn lemma_position_of(&self, k: int)
        requires
            self.wf(),
            0 <= k < self@.len(),
        ensures
            self.position_of(self@[k].0) == Some(k),
    {
        let q = self@[k].0;
        let j = choose|i: int| 0 <= i < self@.len() && self@[i].0 == q;
        if j < k {
            assert(self@[j].0 != self@[k].0);
        }
        if k < j {
            assert(self@[k].0 != self@[j].0);
        }
    }

    proof fn lemma_no_position(&self, q: QueryModel)
        requires
            forall|i: int| 0 <= i < self@.len() ==> self@[i].0 != q,
        ensures
            self.position_of(q) is None,
    {
    }
}

/// Rule texts one after the other.
pub open spec fn joined(rules: Seq<Seq<char>>) -> Seq<char>
    decreases rules.len(),
{
    if rules.len() == 0 {
        Seq::empty()
    } else {
        joined(rules.drop_last()) + rules.last()
    }
}

/// A rule under query `q` with its selector made more specific: for "at most
/// N", `[layout` becomes `[layout\@Npx`; for "above N" with value `v`,
/// `-l[layout` becomes `-l[layout\@Npx="v"][layout`.
pub open spec fn scoped_rule(q: QueryModel, r: Seq<char>) -> Seq<char> {
    match q {
        QueryModel::AtMost(b) => replaced(r, "[layout"@, "[layout\\@"@ + decimal(b) + "px"@),
        QueryModel::Above(b, v) => replaced(
            r,
            "-l[layout"@,
            "-l[layout\\@"@ + decimal(b) + "px=\""@ + v + "\"][layout"@,
        ),
    }
}

/// The `@media` block of query `q` holding `rules`.
pub open spec fn media_block(q: QueryModel, rules: Seq<Seq<char>>) -> Seq<char> {
    let body = joined(rules.map_values(|r: Seq<char>| scoped_rule(q, r)));
    match q {
        QueryModel::AtMost(b) => "@media (width <= "@ + decimal(b) + "px) {\n    "@ + body
            + "\n}"@,
        QueryModel::Above(b, _) => "@media (width > "@ + decimal(b) + "px) {\n    "@ + body
            + "\n}\n"@,
    }
}

/// The blocks of the entries, in order.
pub open spec fn media_blocks(es: Seq<(QueryModel, Seq<Seq<char>>)>) -> Seq<char>
    decreases es.len(),
{
    if es.len() == 0 {
        Seq::empty()
    } else {
        media_blocks(es.drop_last()) + media_block(es.last().0, es.last().1)
    }
}

/// The CSS text: the global rules, then the block of each media query in the
/// order of emission.
pub open spec fn final_css(global: Seq<Seq<char>>, es: Seq<(QueryModel, Seq<Seq<char>>)>) -> Seq<
    char,
> {
    joined(global) + media_blocks(es)
}

/// The rules of `set`, each scoped to `q` where a rewrite is given.
pub open spec fn rewritten(set: Seq<Seq<char>>, rewrite: bool, q: QueryModel) -> Seq<Seq<char>> {
    if rewrite {
        set.map_values(|r: Seq<char>| scoped_rule(q, r))
    } else {
        set
    }
}

/// Appends the rules of `set`; where `rewrite` gives a pattern and its
/// replacement, each rule is rewritten as `q` asks first.
fn append_rules(out: &mut String, set: &RuleSet, rewrite: Option<(&str, &str)>, q: Ghost<QueryModel>)
    requires
        rewrite matches Some(pr) ==> pr.0@.len() > 0 && (forall|r: Seq<char>|
            replaced(r, pr.0@, pr.1@) == #[trigger] scoped_rule(q@, r)),
    ensures
        final(out)@ == old(out)@ + joined(rewritten(set@, rewrite is Some, q@)),
{
    let ghost rules = rewritten(set@, rewrite is Some, q@);
    let ghost start = out@;
    let mut i: usize = 0;
    assert(rules.take(0) =~= Seq::<Seq<char>>::empty());
    while i < set.len()
        invariant
            i <= set@.len(),
            rules == rewritten(set@, rewrite is Some, q@),
            rules.len() == set@.len(),
            rewrite matches Some(pr) ==> pr.0@.len() > 0 && (forall|r: Seq<char>|
                replaced(r, pr.0@, pr.1@) == #[trigger] scoped_rule(q@, r)),
            out@ == start + joined(rules.take(i as int)),
        decreases set@.len() - i,
    {
        let rule = set.get(i);
        assert(rules.take(i + 1).drop_last() =~= rules.take(i as int));
        match rewrite {
            Some((pattern, replacement)) => {
                let scoped = replace_all(rule.as_str(), pattern, replacement);
                assert(scoped@ == scoped_rule(q@, rule@));
                out.append(scoped.as_str());
            },
            None => {
                out.append(rule.as_str());
            },
        }
        i = i + 1;
    }
    assert(rules.take(set@.len() as int) =~= rules);
}

fn media_block_text(q: &MediaQuery, set: &RuleSet) -> (r: String)
    ensures
        r@ == media_block(q@, set@),
{
    proof {
        reveal_strlit("[layout");
        reveal_strlit("-l[layout");
    }
    let mut out = String::new();
    match q {
        MediaQuery::InferiorOrEqualTo(b) => {
            let mut replacement = String::new();
            replacement.append("[layout\\@");
            push_decimal(&mut replacement, *b);
            replacement.append("px");
            out.append("@media (width <= ");
            push_decimal(&mut out, *b);
            out.append("px) {\n    ");
            append_rules(&mut out, set, Some(("[layout", replacement.as_str())), Ghost(q@));
            out.append("\n}");
        },
        MediaQuery::SuperiorTo(b, v) => {
            let mut replacement = String::new();
            replacement.append("-l[layout\\@");
            push_decimal(&mut replacement, *b);
            replacement.append("px=\"");
            replacement.append(v.as_str());
            replacement.append("\"][layout");
            out.append("@media (width > ");
            push_decimal(&mut out, *b);
            out.append("px) {\n    ");
            append_rules(&mut out, set, Some(("-l[layout", replacement.as_str())), Ghost(q@));
            out.append("\n}\n");
        },
    }
    out
}

/// Assembles the CSS text: the global rules, then for each media query, in
/// the order of emission, its rules with their selectors made more specific,
/// wrapped in an `@media` block.
pub fn generate_final_css(css_set: &RuleSet, mq_rules: &MediaQueryRules) -> (r: String)
    ensures
        r@ == final_css(css_set@, mq_rules@),
{
    let mut out = String::new();
    append_rules(&mut out, css_set, None, Ghost(QueryModel::AtMost(0)));
    assert(out@ =~= joined(css_set@));
    let ghost es = mq_rules@;
    let mut i: usize = 0;
    assert(es.take(0) =~= Seq::<(QueryModel, Seq<Seq<char>>)>::empty());
    while i < mq_rules.len()
        invariant
            es == mq_rules@,
            i <= es.len(),
            out@ == joined(css_set@) + media_blocks(es.take(i as int)),
        decreases es.len() - i,
    {
        let (q, set) = mq_rules.entry(i);
        let block = media_block_text(q, set);
        out.append(block.as_str());
        assert(es.take(i + 1).drop_last() =~= es.take(i as int));
        i = i + 1;
    }
    assert(es.take(es.len() as int) =~= es);
    out
}

proof fn lemma_blocks_split(es: Seq<(QueryModel, Seq<Seq<char>>)>, j: int)
    requires
        0 <= j <= es.len(),
    ensures
        media_blocks(es) == media_blocks(es.take(j)) + media_blocks(es.skip(j)),
    decreases es.len() - j,
{
    if j < es.len() {
        lemma_blocks_split(es, j + 1);
        let rest = es.skip(j);
        assert(rest.drop_last() =~= es.skip(j).take(rest.len() - 1));
        lemma_blocks_split(rest, 1);
        assert(rest.take(1).drop_last() =~= Seq::<(QueryModel, Seq<Seq<char>>)>::empty());
        assert(rest.skip(1) =~= es.skip(j + 1));
        assert(es.take(j + 1).drop_last() =~= es.take(j));
        assert(media_blocks(es.take(j + 1)) == media_blocks(es.take(j)) + media_block(es[j].0, es[j].1));
        assert(rest.take(1).last() == es[j]);
        assert(media_blocks(rest.take(1).drop_last()) == Seq::<char>::empty());
        assert(Seq::<char>::empty() + media_block(es[j].0, es[j].1) =~= media_block(es[j].0, es[j].1));
        assert(media_blocks(rest.take(1)) == media_block(es[j].0, es[j].1));
    } else {
        assert(es.take(j) =~= es);
        assert(es.skip(j) =~= Seq::<(QueryModel, Seq<Seq<char>>)>::empty());
    }
}

/// The blocks of the assembled text follow the order of emission: the block
/// at position `j` stands after those before it and before those after it;
/// every "at most" block comes before every "above" block; of two "at most"
/// blocks, the one with the larger breakpoint comes first.
pub proof fn lemma_block_order(r: &MediaQueryRules, global: Seq<Seq<char>>, i: int, j: int)
    requires
        r.wf(),
        0 <= i < j < r@.len(),
    ensures
        final_css(global, r@) == joined(global) + media_blocks(r@.take(j)) + media_block(
            r@[j].0,
            r@[j].1,
        ) + media_blocks(r@.skip(j + 1)),
        !(r@[i].0 is Above && r@[j].0 is AtMost),
        (r@[i].0 is AtMost && r@[j].0 is AtMost) ==> crate::media_query::breakpoint_of(r@[i].0)
            > crate::media_query::breakpoint_of(r@[j].0),
        (r@[i].0 is Above && r@[j].0 is Above) ==> crate::media_query::breakpoint_of(r@[i].0)
            >= crate::media_query::breakpoint_of(r@[j].0),
{
    let es = r@;
    assert(emitted_no_later(es[i].0, es[j].0));
    assert(es[i].0 != es[j].0);
    lemma_blocks_split(es, j);
    let rest = es.skip(j);
    lemma_blocks_split(rest, 1);
    assert(rest.take(1).drop_last() =~= Seq::<(QueryModel, Seq<Seq<char>>)>::empty());
    assert(rest.skip(1) =~= es.skip(j + 1));
    assert(rest.take(1).last() == es[j]);
    assert(media_blocks(rest.take(1).drop_last()) == Seq::<char>::empty());
    assert(Seq::<char>::empty() + media_block(es[j].0, es[j].1) =~= media_block(es[j].0, es[j].1));
    assert(media_blocks(rest.take(1)) == media_block(es[j].0, es[j].1));
}

} // verus!
