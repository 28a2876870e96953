//! Layout elements: what one tag contributes, and the set they are gathered in.
use vstd::prelude::*;

use crate::classes::{classified, is_utility, ClassModel, LayoutClass, Modifier};
use crate::components::{
    accepts, applied, fresh, kind_named, kind_of, Component, ComponentKind, ComponentModel,
};
use crate::media_query::{MediaQuery, QueryModel};
use crate::text::{opt_str, white_space};
use crate::tokens::{lemma_tokens_of_word, split_tokens, tokens};

verus! {

/// What one tag contributes: a component, or a standalone utility, each with
/// the media query it is scoped to.
#[derive(Debug, Clone, PartialEq, Eq, Hash)]
pub enum LayoutElement<'a> {
    LayoutComponent(Component<'a>, Option<MediaQuery>),
    LayoutUtility(LayoutClass<'a>, Option<MediaQuery>),
}

/// A layout element as plain values.
pub enum ElementModel {
    Component(ComponentModel, Option<QueryModel>),
    Utility(ClassModel, Option<QueryModel>),
}

/// The plain value of an optional media query.
pub open spec fn query_view(q: Option<MediaQuery>) -> Option<QueryModel> {
    match q {
        Some(m) => Some(m@),
        None => None,
    }
}

impl<'a> View for LayoutElement<'a> {
    type V = ElementModel;

    open spec fn view(&self) -> ElementModel {
        match self {
            LayoutElement::LayoutComponent(c, q) => ElementModel::Component(c@, query_view(*q)),
            LayoutElement::LayoutUtility(u, q) => ElementModel::Utility(u@, query_view(*q)),
        }
    }
}

fn same_query(a: &Option<MediaQuery>, b: &Option<MediaQuery>) -> (r: bool)
    ensures
        r == (query_view(*a) == query_view(*b)),
{
    match (a, b) {
        (Some(x), Some(y)) => x.same_as(y),
        (None, None) => true,
        _ => false,
    }
}

fn same_class(a: &LayoutClass, b: &LayoutClass) -> (r: bool)
    ensures
        r == (a@ == b@),
{
    if a.modifier() != b.modifier() {
        return false;
    }
    match (a.value(), b.value()) {
        (Some(x), Some(y)) => crate::text::str_eq(x, y),
        _ => true,
    }
}

impl<'a> LayoutElement<'a> {
    /// Whether two elements have the same content and the same media query.
    pub fn same_as(&self, other: &LayoutElement<'a>) -> (r: bool)
        ensures
            r == (self@ == other@),
    {
        match (self, other) {
            (LayoutElement::LayoutComponent(a, p), LayoutElement::LayoutComponent(b, q)) => {
                a.same_as(b) && same_query(p, q)
            },
            (LayoutElement::LayoutUtility(a, p), LayoutElement::LayoutUtility(b, q)) => {
                same_class(a, b) && same_query(p, q)
            },
            _ => false,
        }
    }
}

/// A set of layout elements: an element equal to one already held is not
/// added again.
pub struct LayoutElements<'a> {
    items: Vec<LayoutElement<'a>>,
}

impl<'a> View for LayoutElements<'a> {
    type V = Set<ElementModel>;

    open spec fn view(&self) -> Set<ElementModel> {
        self.models().to_set()
    }
}

impl<'a> LayoutElements<'a> {
    /// The elements held, as plain values, in the order they were added.
    pub closed spec fn models(&self) -> Seq<ElementModel> {
        self.items@.map_values(|e: LayoutElement<'a>| e@)
    }

    /// No two elements held are equal.
    pub open spec fn wf(&self) -> bool {
        self.models().no_duplicates()
    }

    /// An empty set.
    pub fn new() -> (r: Self)
        ensures
            r.wf(),
            r@ == Set::<ElementModel>::empty(),
    {
        let r = LayoutElements { items: Vec::new() };
        assert(r.models() =~= Seq::empty());
        r
    }

    /// How many distinct elements are held.
    pub fn len(&self) -> (r: usize)
        requires
            self.wf(),
        ensures
            r == self@.len(),
    {
        proof {
            self.models().unique_seq_to_set();
        }
        self.items.len()
    }

    /// The elements held, in the order they were first added.
    pub fn elements(&self) -> (r: &Vec<LayoutElement<'a>>)
        ensures
            r@.map_values(|e: LayoutElement<'a>| e@) == self.models(),
    {
        &self.items
    }

    /// Whether an element equal to `e` is held.
    pub fn contains(&self, e: &LayoutElement<'a>) -> (r: bool)
        ensures
            r == self@.contains(e@),
    {
        let mut i: usize = 0;
        while i < self.items.len()
            invariant
                i <= self.items.len(),
                forall|k: int| 0 <= k < i ==> self.models()[k] != e@,
            decreases self.items.len() - i,
        {
            if self.items[i].same_as(e) {
                assert(self.models()[i as int] == e@);
                return true;
            }
            i = i + 1;
        }
        assert(!self.models().contains(e@));
        false
    }

    /// Adds `e` unless an equal element is held; returns whether it was added.
    pub fn insert(&mut self, e: LayoutElement<'a>) -> (r: bool)
        requires
            old(self).wf(),
        ensures
            final(self).wf(),
            final(self)@ == old(self)@.insert(e@),
            r == !old(self)@.contains(e@),
    {
        if self.contains(&e) {
            assert(self@.insert(e@) =~= self@);
            false
        } else {
            let ghost before = self.models();
            self.items.push(e);
            assert(self.models() =~= before.push(e@));
            assert forall|x: ElementModel| #[trigger] self@.contains(x) <==> before.to_set().insert(
                e@,
            ).contains(x) by {
                if x == e@ {
                    assert(self.models()[before.len() as int] == x);
                }
                if before.contains(x) {
                    let k = choose|k: int| 0 <= k < before.len() && before[k] == x;
                    assert(self.models()[k] == x);
                }
            }
            assert(self@ =~= before.to_set().insert(e@));
            true
        }
    }
}

/// Where a utility found under media query `q` is scoped: one found in the
/// base attribute (scoped "above" the largest breakpoint) is global, one found
/// in a breakpoint attribute keeps its "at most" query.
pub open spec fn utility_scope(q: Option<QueryModel>) -> Option<QueryModel> {
    match q {
        Some(QueryModel::Above(_, _)) => None,
        _ => q,
    }
}

/// What one token does to the component being built and which utility it
/// gives: a modifier that sets a field of the component's kind goes there;
/// any other classified token becomes a utility; an unknown one is dropped.
pub open spec fn token_step(c: Option<ComponentModel>, t: Seq<char>, q: Option<QueryModel>) -> (
    Option<ComponentModel>,
    Set<ElementModel>,
) {
    match classified(t) {
        None => (c, Set::empty()),
        Some(x) => if c is Some && accepts(kind_of(c->0), x.modifier) {
            (Some(applied(c->0, x)), Set::empty())
        } else {
            (c, set![ElementModel::Utility(x, utility_scope(q))])
        },
    }
}

/// The component and the utilities after the tokens `ts`, in order.
pub open spec fn fold_tokens(
    c: Option<ComponentModel>,
    ts: Seq<Seq<char>>,
    q: Option<QueryModel>,
) -> (Option<ComponentModel>, Set<ElementModel>)
    decreases ts.len(),
{
    if ts.len() == 0 {
        (c, Set::empty())
    } else {
        let (c1, u1) = fold_tokens(c, ts.drop_last(), q);
        let (c2, u2) = token_step(c1, ts.last(), q);
        (c2, u1.union(u2))
    }
}

/// The tokens of an optional attribute value.
pub open spec fn attribute_tokens(a: Option<Seq<char>>) -> Seq<Seq<char>> {
    match a {
        Some(v) => tokens(v),
        None => Seq::empty(),
    }
}

/// The elements that a tag with name `tag` and attribute value `a`, under
/// media query `q`, gives: the utilities of its tokens, and the component that
/// the tag name denotes (if any) with its fields set, scoped to `q`.
pub open spec fn generated(tag: Seq<char>, a: Option<Seq<char>>, q: Option<QueryModel>) -> Set<
    ElementModel,
> {
    let start = match kind_named(tag) {
        Some(k) => Some(fresh(k)),
        None => None,
    };
    let (c, u) = fold_tokens(start, attribute_tokens(a), q);
    match c {
        Some(m) => u.insert(ElementModel::Component(m, q)),
        None => u,
    }
}

fn scope_of_utility(q: &Option<MediaQuery>) -> (r: Option<MediaQuery>)
    ensures
        query_view(r) == utility_scope(query_view(*q)),
{
    match q {
        Some(MediaQuery::InferiorOrEqualTo(b)) => Some(MediaQuery::InferiorOrEqualTo(*b)),
        _ => None,
    }
}

/// Adds to `set` the elements that a tag gives: the component that `tag_name`
/// denotes, with the fields that the tokens of `layout_attribute` set, scoped
/// to `media_query`; and a utility for each other classified token.
pub fn generate<'a>(
    tag_name: &'a str,
    layout_attribute: Option<&'a str>,
    media_query: Option<MediaQuery>,
    set: &mut LayoutElements<'a>,
)
    requires
        old(set).wf(),
    ensures
        final(set).wf(),
        final(set)@ == old(set)@.union(
            generated(tag_name@, opt_str(layout_attribute), query_view(media_query)),
        ),
{
    let ghost q = query_view(media_query);
    let ghost start = match kind_named(tag_name@) {
        Some(k) => Some(fresh(k)),
        None => None,
    };
    let mut component = Component::from_tag(tag_name);
    let toks: Vec<&'a str> = match layout_attribute {
        Some(a) => split_tokens(a),
        None => Vec::new(),
    };
    let ghost ts = toks@.map_values(|t: &'a str| t@);
    assert(ts =~= attribute_tokens(opt_str(layout_attribute)));
    let ghost base = set@;
    let mut i: usize = 0;
    while i < toks.len()
        invariant
            ts == toks@.map_values(|t: &'a str| t@),
            q == query_view(media_query),
            i <= toks.len(),
            set.wf(),
            ({
                let (c, u) = fold_tokens(start, ts.take(i as int), q);
                &&& match component {
                    Some(x) => c == Some(x@),
                    None => c is None,
                }
                &&& set@ == base.union(u)
            }),
        decreases toks.len() - i,
    {
        let t = toks[i];
        assert(ts.take(i + 1).drop_last() =~= ts.take(i as int));
        assert(ts.take(i + 1).last() == t@);
        let ghost u0 = fold_tokens(start, ts.take(i as int), q).1;
        match LayoutClass::classify(t) {
            Some(class) => {
                let taken = match &mut component {
                    Some(c) => c.apply(&class),
                    None => false,
                };
                if !taken {
                    let u = scope_of_utility(&media_query);
                    let e = LayoutElement::LayoutUtility(class, u);
                    set.insert(e);
                    assert(set@ =~= base.union(u0.union(set![e@])));
                } else {
                    assert(base.union(u0) =~= base.union(u0.union(Set::empty())));
                }
            },
            None => {
                assert(base.union(u0) =~= base.union(u0.union(Set::empty())));
            },
        }
        i = i + 1;
    }
    assert(ts.take(toks.len() as int) =~= ts);
    match component {
        Some(c) => {
            set.insert(LayoutElement::LayoutComponent(c, media_query));
        },
        None => {},
    }
}

/// Adding the same element twice holds it once: the second addition changes
/// nothing.
pub proof fn lemma_element_added_once(s: Set<ElementModel>, e: ElementModel)
    ensures
        s.insert(e).insert(e) == s.insert(e),
        s.insert(e).contains(e),
{
    assert(s.insert(e).insert(e) =~= s.insert(e));
}

/// An independent utility sets no field of any component kind.
pub proof fn lemma_utility_never_accepted(k: ComponentKind, m: Modifier)
    requires
        is_utility(m),
    ensures
        !accepts(k, m),
{
}

proof fn lemma_fold_kind(c: Option<ComponentModel>, ts: Seq<Seq<char>>, q: Option<QueryModel>)
    ensures
        fold_tokens(c, ts, q).0 is Some <==> c is Some,
        c is Some ==> kind_of(fold_tokens(c, ts, q).0->0) == kind_of(c->0),
    decreases ts.len(),
{
    if ts.len() > 0 {
        lemma_fold_kind(c, ts.drop_last(), q);
    }
}

proof fn lemma_fold_utility(
    c: Option<ComponentModel>,
    ts: Seq<Seq<char>>,
    q: Option<QueryModel>,
    j: int,
    x: ClassModel,
)
    requires
        0 <= j < ts.len(),
        classified(ts[j]) == Some(x),
        c is None || !accepts(kind_of(c->0), x.modifier),
    ensures
        fold_tokens(c, ts, q).1.contains(ElementModel::Utility(x, utility_scope(q))),
    decreases ts.len(),
{
    lemma_fold_kind(c, ts.drop_last(), q);
    if j < ts.len() - 1 {
        lemma_fold_utility(c, ts.drop_last(), q, j, x);
    }
}

/// A utility token keeps the scope of where it stands: in a breakpoint
/// attribute, under that breakpoint's "at most" query; in the base attribute of
/// a tag with breakpoint attributes, which is processed "above" the largest
/// breakpoint, under no query at all.
pub proof fn lemma_utility_scoping(tag: Seq<char>, a: Seq<char>, t: Seq<char>, b: nat, v: Seq<char>)
    requires
        tokens(a).contains(t),
        classified(t) matches Some(x) && is_utility(x.modifier),
    ensures
        generated(tag, Some(a), Some(QueryModel::AtMost(b))).contains(
            ElementModel::Utility(classified(t)->0, Some(QueryModel::AtMost(b))),
        ),
        generated(tag, Some(a), Some(QueryModel::Above(b, v))).contains(
            ElementModel::Utility(classified(t)->0, None),
        ),
{
    let x = classified(t)->0;
    let j = choose|j: int| 0 <= j < tokens(a).len() && tokens(a)[j] == t;
    let start = match kind_named(tag) {
        Some(k) => Some(fresh(k)),
        None => None,
    };
    if start is Some {
        lemma_utility_never_accepted(kind_of(start->0), x.modifier);
    }
    lemma_fold_utility(start, tokens(a), Some(QueryModel::AtMost(b)), j, x);
    lemma_fold_utility(start, tokens(a), Some(QueryModel::Above(b, v)), j, x);
}

/// Field routing goes by the component's kind alone: a modifier that sets a
/// field of kind `ka` but not of kind `kb`, in the attribute of a tag of kind
/// `kb`, gives a utility.
pub proof fn lemma_routing_by_kind(
    tag: Seq<char>,
    a: Seq<char>,
    t: Seq<char>,
    q: Option<QueryModel>,
    ka: ComponentKind,
    kb: ComponentKind,
)
    requires
        kind_named(tag) == Some(kb),
        tokens(a).contains(t),
        classified(t) matches Some(x) && accepts(ka, x.modifier) && !accepts(kb, x.modifier),
    ensures
        generated(tag, Some(a), q).contains(ElementModel::Utility(classified(t)->0, utility_scope(q))),
{
    let j = choose|j: int| 0 <= j < tokens(a).len() && tokens(a)[j] == t;
    lemma_fold_utility(Some(fresh(kb)), tokens(a), q, j, classified(t)->0);
}

/// The same, and the component is left as it was: a tag of kind `kb` whose
/// attribute holds only such a token gives that utility and the bare
/// component.
pub proof fn lemma_routing_leaves_component(
    tag: Seq<char>,
    t: Seq<char>,
    q: Option<QueryModel>,
    ka: ComponentKind,
    kb: ComponentKind,
)
    requires
        kind_named(tag) == Some(kb),
        t.len() > 0,
        forall|k: int| 0 <= k < t.len() ==> !white_space(#[trigger] t[k]),
        classified(t) matches Some(x) && accepts(ka, x.modifier) && !accepts(kb, x.modifier),
    ensures
        generated(tag, Some(t), q) == set![
            ElementModel::Utility(classified(t)->0, utility_scope(q)),
            ElementModel::Component(fresh(kb), q),
        ],
{
    lemma_tokens_of_word(t);
    let ts = tokens(t);
    assert(ts.drop_last() =~= Seq::<Seq<char>>::empty());
    let x = classified(t)->0;
    let u = ElementModel::Utility(x, utility_scope(q));
    assert(fold_tokens(Some(fresh(kb)), ts.drop_last(), q) == (
        Some(fresh(kb)),
        Set::<ElementModel>::empty(),
    ));
    assert(token_step(Some(fresh(kb)), t, q) == (Some(fresh(kb)), set![u]));
    assert(fold_tokens(Some(fresh(kb)), ts, q).1 =~= set![u]);
    assert(generated(tag, Some(t), q) =~= set![
        ElementModel::Utility(classified(t)->0, utility_scope(q)),
        ElementModel::Component(fresh(kb), q),
    ]);
}

} // verus!
