//! The rules of the utilities whose CSS takes the value as it is written.
use vstd::prelude::*;

use crate::rules::{with_rule, with_rules, RuleSet};

verus! {

pub const BG_IMG_STYLE: &'static str = "
    [layout*=\"bg-img\"]{
        background-origin: border-box;
        background-repeat: no-repeat;
        background-position: center;
        background-size: cover;
    }
";

pub const RATIO_STYLE: &'static str = "
    img[layout~=\"ratio\"],video[layout~=\"ratio\"] {
    inline-size: 100%;
    object-fit: cover;
    }
";

/// The rule that sets `property` to `v` on elements with the token
/// `name:v`.
pub open spec fn value_rule(name: Seq<char>, property: Seq<char>, v: Seq<char>) -> Seq<char> {
    "[layout~=\""@ + name + ":"@ + v + "\"]{\n    "@ + property + ": "@ + v + ";\n}\n"@
}

/// The rule that hides elements with the token `name:v` on screens of at
/// least (`bound` is `min-width`) or at most (`max-width`) `v`.
pub open spec fn hide_rule(bound: Seq<char>, name: Seq<char>, v: Seq<char>) -> Seq<char> {
    "@media screen and ("@ + bound + ": "@ + v + ") {\n    [layout~=\""@ + name + ":"@ + v
        + "\"]{\n        display:none;\n    }\n}\n"@
}

proof fn lemma_two_rules(s: Seq<Seq<char>>, a: Seq<char>, b: Seq<char>)
    ensures
        with_rules(s, seq![a, b]) == with_rule(with_rule(s, a), b),
{
    let rs = seq![a, b];
    assert(rs.drop_last().drop_last() =~= Seq::<Seq<char>>::empty());
    assert(rs.drop_last() =~= seq![a]);
    assert(with_rules(s, rs.drop_last().drop_last()) == s);
    assert(with_rules(s, rs.drop_last()) == with_rule(s, a));
}

fn value_rule_text(name: &str, property: &str, v: &str) -> (r: String)
    ensures
        r@ == value_rule(name@, property@, v@),
{
    let mut r = String::new();
    r.append("[layout~=\"");
    r.append(name);
    r.append(":");
    r.append(v);
    r.append("\"]{\n    ");
    r.append(property);
    r.append(": ");
    r.append(v);
    r.append(";\n}\n");
    r
}

fn hide_rule_text(bound: &str, name: &str, v: &str) -> (r: String)
    ensures
        r@ == hide_rule(bound@, name@, v@),
{
    let mut r = String::new();
    r.append("@media screen and (");
    r.append(bound);
    r.append(": ");
    r.append(v);
    r.append(") {\n    [layout~=\"");
    r.append(name);
    r.append(":");
    r.append(v);
    r.append("\"]{\n        display:none;\n    }\n}\n");
    r
}

/// Adds the rule of `align-self:value`.
pub fn align_self_css(value: &str, set: &mut RuleSet)
    requires
        old(set).wf(),
    ensures
        final(set).wf(),
        final(set)@ == with_rule(old(set)@, value_rule("align-self"@, "align-self"@, value@)),
{
    set.insert(value_rule_text("align-self", "align-self", value));
}

/// Adds the rules of `bg-img:value`: the shared background rule and the
/// image itself.
pub fn bg_img_css(value: &str, set: &mut RuleSet)
    requires
        old(set).wf(),
    ensures
        final(set).wf(),
        final(set)@ == with_rules(
            old(set)@,
            seq![
                BG_IMG_STYLE@,
                "[layout~=\"bg-img:"@ + value@ + "\"]{\n    background-image: url("@ + value@
                    + ");\n}\n"@,
            ],
        ),
{
    let ghost s0 = set@;
    set.insert(BG_IMG_STYLE.to_owned());
    let mut r = String::new();
    r.append("[layout~=\"bg-img:");
    r.append(value);
    r.append("\"]{\n    background-image: url(");
    r.append(value);
    r.append(");\n}\n");
    let ghost rule = r@;
    set.insert(r);
    proof {
        lemma_two_rules(s0, BG_IMG_STYLE@, rule);
    }
}

/// Adds the rule of `flex-basis:value`.
pub fn flex_basis_css(value: &str, set: &mut RuleSet)
    requires
        old(set).wf(),
    ensures
        final(set).wf(),
        final(set)@ == with_rule(old(set)@, value_rule("flex-basis"@, "flex-basis"@, value@)),
{
    set.insert(value_rule_text("flex-basis", "flex-basis", value));
}

/// Adds the rule of `flex-grow:value`.
pub fn flex_grow_css(value: &str, set: &mut RuleSet)
    requires
        old(set).wf(),
    ensures
        final(set).wf(),
        final(set)@ == with_rule(old(set)@, value_rule("flex-grow"@, "flex-grow"@, value@)),
{
    set.insert(value_rule_text("flex-grow", "flex-grow", value));
}

/// Adds the rule of `flex-shrink:value`.
pub fn flex_shrink_css(value: &str, set: &mut RuleSet)
    requires
        old(set).wf(),
    ensures
        final(set).wf(),
        final(set)@ == with_rule(old(set)@, value_rule("flex-shrink"@, "flex-shrink"@, value@)),
{
    set.insert(value_rule_text("flex-shrink", "flex-shrink", value));
}

/// Adds the rule of `hide-over:value`: hidden on screens at least `value`
/// wide.
pub fn hide_over_css(value: &str, set: &mut RuleSet)
    requires
        old(set).wf(),
    ensures
        final(set).wf(),
        final(set)@ == with_rule(old(set)@, hide_rule("min-width"@, "hide-over"@, value@)),
{
    set.insert(hide_rule_text("min-width", "hide-over", value));
}

/// Adds the rule of `hide-under:value`: hidden on screens at most `value`
/// wide.
pub fn hide_under_css(value: &str, set: &mut RuleSet)
    requires
        old(set).wf(),
    ensures
        final(set).wf(),
        final(set)@ == with_rule(old(set)@, hide_rule("max-width"@, "hide-under"@, value@)),
{
    set.insert(hide_rule_text("max-width", "hide-under", value));
}

/// Adds the rule of `line-height:value`.
pub fn line_height_css(value: &str, set: &mut RuleSet)
    requires
        old(set).wf(),
    ensures
        final(set).wf(),
        final(set)@ == with_rule(old(set)@, value_rule("line-height"@, "line-height"@, value@)),
{
    set.insert(value_rule_text("line-height", "line-height", value));
}

/// Adds the rules of `ratio:value`: the shared media rule and the aspect
/// ratio itself.
pub fn ratio_css(value: &str, set: &mut RuleSet)
    requires
        old(set).wf(),
    ensures
        final(set).wf(),
        final(set)@ == with_rules(
            old(set)@,
            seq![RATIO_STYLE@, value_rule("ratio"@, "aspect-ratio"@, value@)],
        ),
{
    let ghost s0 = set@;
    set.insert(RATIO_STYLE.to_owned());
    let r = value_rule_text("ratio", "aspect-ratio", value);
    let ghost rule = r@;
    set.insert(r);
    proof {
        lemma_two_rules(s0, RATIO_STYLE@, rule);
    }
}

/// Adds the rule of `z-index:value`.
pub fn z_index_css(value: &str, set: &mut RuleSet)
    requires
        old(set).wf(),
    ensures
        final(set).wf(),
        final(set)@ == with_rule(old(set)@, value_rule("z-index"@, "z-index"@, value@)),
{
    set.insert(value_rule_text("z-index", "z-index", value));
}

} // verus!
