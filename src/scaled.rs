//! The rules of the utilities that scale their value by the harmonic ratio:
//! each takes the value as written and as scaled.
use vstd::prelude::*;

use crate::rules::{with_rule, RuleSet};

verus! {

/// The rule of `p:value`, with `scaled` the value scaled by the
/// harmonic ratio.
pub open spec fn p_rule(value: Seq<char>, scaled: Seq<char>) -> Seq<char> {
    "[layout~=\"p:"@ + value + "\"]{\n    padding: "@ + scaled + ";\n    --pl: "@ + scaled
        + ";\n    --pr: "@ + scaled + ";\n}\n"@
}

/// Adds the rule of `p:value`, with `scaled` the value scaled by the
/// harmonic ratio.
pub fn p_css(value: &str, scaled: &str, set: &mut RuleSet)
    requires
        old(set).wf(),
    ensures
        final(set).wf(),
        final(set)@ == with_rule(old(set)@, p_rule(value@, scaled@)),
{
    let mut r = String::new();
    r.append("[layout~=\"p:");
    r.append(value);
    r.append("\"]{\n    padding: ");
    r.append(scaled);
    r.append(";\n    --pl: ");
    r.append(scaled);
    r.append(";\n    --pr: ");
    r.append(scaled);
    r.append(";\n}\n");
    set.insert(r);
}

/// The rule of `pt:value`, with `scaled` the value scaled by the
/// harmonic ratio.
pub open spec fn pt_rule(value: Seq<char>, scaled: Seq<char>) -> Seq<char> {
    "[layout~=\"pt:"@ + value + "\"]{\n    padding-top: "@ + scaled + ";\n}\n"@
}

/// Adds the rule of `pt:value`, with `scaled` the value scaled by the
/// harmonic ratio.
pub fn pt_css(value: &str, scaled: &str, set: &mut RuleSet)
    requires
        old(set).wf(),
    ensures
        final(set).wf(),
        final(set)@ == with_rule(old(set)@, pt_rule(value@, scaled@)),
{
    let mut r = String::new();
    r.append("[layout~=\"pt:");
    r.append(value);
    r.append("\"]{\n    padding-top: ");
    r.append(scaled);
    r.append(";\n}\n");
    set.insert(r);
}

/// The rule of `pb:value`, with `scaled` the value scaled by the
/// harmonic ratio.
pub open spec fn pb_rule(value: Seq<char>, scaled: Seq<char>) -> Seq<char> {
    "[layout~=\"pb:"@ + value + "\"]{\n    padding-bottom: "@ + scaled + ";\n}\n"@
}

/// Adds the rule of `pb:value`, with `scaled` the value scaled by the
/// harmonic ratio.
pub fn pb_css(value: &str, scaled: &str, set: &mut RuleSet)
    requires
        old(set).wf(),
    ensures
        final(set).wf(),
        final(set)@ == with_rule(old(set)@, pb_rule(value@, scaled@)),
{
    let mut r = String::new();
    r.append("[layout~=\"pb:");
    r.append(value);
    r.append("\"]{\n    padding-bottom: ");
    r.append(scaled);
    r.append(";\n}\n");
    set.insert(r);
}

/// The rule of `pl:value`, with `scaled` the value scaled by the
/// harmonic ratio.
pub open spec fn pl_rule(value: Seq<char>, scaled: Seq<char>) -> Seq<char> {
    "[layout~=\"pl:"@ + value + "\"]{\n    padding-left: "@ + scaled + ";\n    --pl: "@ + scaled
        + ";\n}\n"@
}

/// Adds the rule of `pl:value`, with `scaled` the value scaled by the
/// harmonic ratio.
pub fn pl_css(value: &str, scaled: &str, set: &mut RuleSet)
    requires
        old(set).wf(),
    ensures
        final(set).wf(),
        final(set)@ == with_rule(old(set)@, pl_rule(value@, scaled@)),
{
    let mut r = String::new();
    r.append("[layout~=\"pl:");
    r.append(value);
    r.append("\"]{\n    padding-left: ");
    r.append(scaled);
    r.append(";\n    --pl: ");
    r.append(scaled);
    r.append(";\n}\n");
    set.insert(r);
}

/// The rule of `pr:value`, with `scaled` the value scaled by the
/// harmonic ratio.
pub open spec fn pr_rule(value: Seq<char>, scaled: Seq<char>) -> Seq<char> {
    "[layout~=\"pr:"@ + value + "\"]{\n    padding-right: "@ + scaled + ";\n    --pr: "@ + scaled
        + ";\n}\n"@
}

/// Adds the rule of `pr:value`, with `scaled` the value scaled by the
/// harmonic ratio.
pub fn pr_css(value: &str, scaled: &str, set: &mut RuleSet)
    requires
        old(set).wf(),
    ensures
        final(set).wf(),
        final(set)@ == with_rule(old(set)@, pr_rule(value@, scaled@)),
{
    let mut r = String::new();
    r.append("[layout~=\"pr:");
    r.append(value);
    r.append("\"]{\n    padding-right: ");
    r.append(scaled);
    r.append(";\n    --pr: ");
    r.append(scaled);
    r.append(";\n}\n");
    set.insert(r);
}

/// The rule of `px:value`, with `scaled` the value scaled by the
/// harmonic ratio.
pub open spec fn px_rule(value: Seq<char>, scaled: Seq<char>) -> Seq<char> {
    "[layout~=\"px:"@ + value + "\"]{\n    padding-left: "@ + scaled + ";\n    padding-right: "@
        + scaled + ";\n    --pl: "@ + scaled + ";\n    --pr: "@ + scaled + ";\n}\n"@
}

/// Adds the rule of `px:value`, with `scaled` the value scaled by the
/// harmonic ratio.
pub fn px_css(value: &str, scaled: &str, set: &mut RuleSet)
    requires
        old(set).wf(),
    ensures
        final(set).wf(),
        final(set)@ == with_rule(old(set)@, px_rule(value@, scaled@)),
{
    let mut r = String::new();
    r.append("[layout~=\"px:");
    r.append(value);
    r.append("\"]{\n    padding-left: ");
    r.append(scaled);
    r.append(";\n    padding-right: ");
    r.append(scaled);
    r.append(";\n    --pl: ");
    r.append(scaled);
    r.append(";\n    --pr: ");
    r.append(scaled);
    r.append(";\n}\n");
    set.insert(r);
}

/// The rule of `py:value`, with `scaled` the value scaled by the
/// harmonic ratio.
pub open spec fn py_rule(value: Seq<char>, scaled: Seq<char>) -> Seq<char> {
    "[layout~=\"py:"@ + value + "\"]{\n    padding-top: "@ + scaled + ";\n    padding-bottom: "@
        + scaled + ";\n}\n"@
}

/// Adds the rule of `py:value`, with `scaled` the value scaled by the
/// harmonic ratio.
pub fn py_css(value: &str, scaled: &str, set: &mut RuleSet)
    requires
        old(set).wf(),
    ensures
        final(set).wf(),
        final(set)@ == with_rule(old(set)@, py_rule(value@, scaled@)),
{
    let mut r = String::new();
    r.append("[layout~=\"py:");
    r.append(value);
    r.append("\"]{\n    padding-top: ");
    r.append(scaled);
    r.append(";\n    padding-bottom: ");
    r.append(scaled);
    r.append(";\n}\n");
    set.insert(r);
}

/// The rule of `p-child:value`, with `scaled` the value scaled by the
/// harmonic ratio.
pub open spec fn p_child_rule(value: Seq<char>, scaled: Seq<char>) -> Seq<char> {
    "[layout~=\"p-child:"@ + value + "\"]> *{\n    padding: "@ + scaled + ";\n    --pl: padding: "@
        + scaled + ";\n    --pr: padding: "@ + scaled + ";\n}\n"@
}

/// Adds the rule of `p-child:value`, with `scaled` the value scaled by the
/// harmonic ratio.
pub fn p_child_css(value: &str, scaled: &str, set: &mut RuleSet)
    requires
        old(set).wf(),
    ensures
        final(set).wf(),
        final(set)@ == with_rule(old(set)@, p_child_rule(value@, scaled@)),
{
    let mut r = String::new();
    r.append("[layout~=\"p-child:");
    r.append(value);
    r.append("\"]> *{\n    padding: ");
    r.append(scaled);
    r.append(";\n    --pl: padding: ");
    r.append(scaled);
    r.append(";\n    --pr: padding: ");
    r.append(scaled);
    r.append(";\n}\n");
    set.insert(r);
}

/// The rule of `pt-child:value`, with `scaled` the value scaled by the
/// harmonic ratio.
pub open spec fn pt_child_rule(value: Seq<char>, scaled: Seq<char>) -> Seq<char> {
    "[layout~=\"pt-child:"@ + value + "\"]> *{\n    padding-top: "@ + scaled + ";\n}\n"@
}

/// Adds the rule of `pt-child:value`, with `scaled` the value scaled by the
/// harmonic ratio.
pub fn pt_child_css(value: &str, scaled: &str, set: &mut RuleSet)
    requires
        old(set).wf(),
    ensures
        final(set).wf(),
        final(set)@ == with_rule(old(set)@, pt_child_rule(value@, scaled@)),
{
    let mut r = String::new();
    r.append("[layout~=\"pt-child:");
    r.append(value);
    r.append("\"]> *{\n    padding-top: ");
    r.append(scaled);
    r.append(";\n}\n");
    set.insert(r);
}

/// The rule of `pb-child:value`, with `scaled` the value scaled by the
/// harmonic ratio.
pub open spec fn pb_child_rule(value: Seq<char>, scaled: Seq<char>) -> Seq<char> {
    "[layout~=\"pb-child:"@ + value + "\"]> *{\n    padding-bottom: "@ + scaled + ";\n}\n"@
}

/// Adds the rule of `pb-child:value`, with `scaled` the value scaled by the
/// harmonic ratio.
pub fn pb_child_css(value: &str, scaled: &str, set: &mut RuleSet)
    requires
        old(set).wf(),
    ensures
        final(set).wf(),
        final(set)@ == with_rule(old(set)@, pb_child_rule(value@, scaled@)),
{
    let mut r = String::new();
    r.append("[layout~=\"pb-child:");
    r.append(value);
    r.append("\"]> *{\n    padding-bottom: ");
    r.append(scaled);
    r.append(";\n}\n");
    set.insert(r);
}

/// The rule of `pl-child:value`, with `scaled` the value scaled by the
/// harmonic ratio.
pub open spec fn pl_child_rule(value: Seq<char>, scaled: Seq<char>) -> Seq<char> {
    "[layout~=\"pl-child:"@ + value + "\"]> *{\n    padding-left: "@ + scaled + ";\n    --pl: "@
        + scaled + ";\n}\n"@
}

/// Adds the rule of `pl-child:value`, with `scaled` the value scaled by the
/// harmonic ratio.
pub fn pl_child_css(value: &str, scaled: &str, set: &mut RuleSet)
    requires
        old(set).wf(),
    ensures
        final(set).wf(),
        final(set)@ == with_rule(old(set)@, pl_child_rule(value@, scaled@)),
{
    let mut r = String::new();
    r.append("[layout~=\"pl-child:");
    r.append(value);
    r.append("\"]> *{\n    padding-left: ");
    r.append(scaled);
    r.append(";\n    --pl: ");
    r.append(scaled);
    r.append(";\n}\n");
    set.insert(r);
}

/// The rule of `pr-child:value`, with `scaled` the value scaled by the
/// harmonic ratio.
pub open spec fn pr_child_rule(value: Seq<char>, scaled: Seq<char>) -> Seq<char> {
    "[layout~=\"pr-child:"@ + value + "\"]> *{\n    padding-right: "@ + scaled + ";\n    --pr: "@
        + scaled + ";\n}\n"@
}

/// Adds the rule of `pr-child:value`, with `scaled` the value scaled by the
/// harmonic ratio.
pub fn pr_child_css(value: &str, scaled: &str, set: &mut RuleSet)
    requires
        old(set).wf(),
    ensures
        final(set).wf(),
        final(set)@ == with_rule(old(set)@, pr_child_rule(value@, scaled@)),
{
    let mut r = String::new();
    r.append("[layout~=\"pr-child:");
    r.append(value);
    r.append("\"]> *{\n    padding-right: ");
    r.append(scaled);
    r.append(";\n    --pr: ");
    r.append(scaled);
    r.append(";\n}\n");
    set.insert(r);
}

/// The rule of `px-child:value`, with `scaled` the value scaled by the
/// harmonic ratio.
pub open spec fn px_child_rule(value: Seq<char>, scaled: Seq<char>) -> Seq<char> {
    "[layout~=\"px-child:"@ + value + "\"]> *{\n    padding-left: "@ + scaled
        + ";\n    padding-right: "@ + scaled + ";\n    --pl: "@ + scaled + ";\n    --pr: "@ + scaled
        + ";\n}\n"@
}

/// Adds the rule of `px-child:value`, with `scaled` the value scaled by the
/// harmonic ratio.
pub fn px_child_css(value: &str, scaled: &str, set: &mut RuleSet)
    requires
        old(set).wf(),
    ensures
        final(set).wf(),
        final(set)@ == with_rule(old(set)@, px_child_rule(value@, scaled@)),
{
    let mut r = String::new();
    r.append("[layout~=\"px-child:");
    r.append(value);
    r.append("\"]> *{\n    padding-left: ");
    r.append(scaled);
    r.append(";\n    padding-right: ");
    r.append(scaled);
    r.append(";\n    --pl: ");
    r.append(scaled);
    r.append(";\n    --pr: ");
    r.append(scaled);
    r.append(";\n}\n");
    set.insert(r);
}

/// The rule of `py-child:value`, with `scaled` the value scaled by the
/// harmonic ratio.
pub open spec fn py_child_rule(value: Seq<char>, scaled: Seq<char>) -> Seq<char> {
    "[layout~=\"py-child:"@ + value + "\"]> *{\n    padding-top: "@ + scaled
        + ";\n    padding-bottom: "@ + scaled + ";\n}\n"@
}

/// Adds the rule of `py-child:value`, with `scaled` the value scaled by the
/// harmonic ratio.
pub fn py_child_css(value: &str, scaled: &str, set: &mut RuleSet)
    requires
        old(set).wf(),
    ensures
        final(set).wf(),
        final(set)@ == with_rule(old(set)@, py_child_rule(value@, scaled@)),
{
    let mut r = String::new();
    r.append("[layout~=\"py-child:");
    r.append(value);
    r.append("\"]> *{\n    padding-top: ");
    r.append(scaled);
    r.append(";\n    padding-bottom: ");
    r.append(scaled);
    r.append(";\n}\n");
    set.insert(r);
}

/// The rule of `p-recursive:value`, with `scaled` the value scaled by the
/// harmonic ratio.
pub open spec fn p_recursive_rule(value: Seq<char>, scaled: Seq<char>) -> Seq<char> {
    "[layout~=\"p-recursive:"@ + value + "\"] *{\n    padding: "@ + scaled
        + ";\n    --pl: padding: "@ + scaled + ";\n    --pr: padding: "@ + scaled + ";\n}\n"@
}

/// Adds the rule of `p-recursive:value`, with `scaled` the value scaled by the
/// harmonic ratio.
pub fn p_recursive_css(value: &str, scaled: &str, set: &mut RuleSet)
    requires
        old(set).wf(),
    ensures
        final(set).wf(),
        final(set)@ == with_rule(old(set)@, p_recursive_rule(value@, scaled@)),
{
    let mut r = String::new();
    r.append("[layout~=\"p-recursive:");
    r.append(value);
    r.append("\"] *{\n    padding: ");
    r.append(scaled);
    r.append(";\n    --pl: padding: ");
    r.append(scaled);
    r.append(";\n    --pr: padding: ");
    r.append(scaled);
    r.append(";\n}\n");
    set.insert(r);
}

/// The rule of `pt-recursive:value`, with `scaled` the value scaled by the
/// harmonic ratio.
pub open spec fn pt_recursive_rule(value: Seq<char>, scaled: Seq<char>) -> Seq<char> {
    "[layout~=\"pt-recursive:"@ + value + "\"] *{\n    padding-top: "@ + scaled + ";\n}\n"@
}

/// Adds the rule of `pt-recursive:value`, with `scaled` the value scaled by the
/// harmonic ratio.
pub fn pt_recursive_css(value: &str, scaled: &str, set: &mut RuleSet)
    requires
        old(set).wf(),
    ensures
        final(set).wf(),
        final(set)@ == with_rule(old(set)@, pt_recursive_rule(value@, scaled@)),
{
    let mut r = String::new();
    r.append("[layout~=\"pt-recursive:");
    r.append(value);
    r.append("\"] *{\n    padding-top: ");
    r.append(scaled);
    r.append(";\n}\n");
    set.insert(r);
}

/// The rule of `pb-recursive:value`, with `scaled` the value scaled by the
/// harmonic ratio.
pub open spec fn pb_recursive_rule(value: Seq<char>, scaled: Seq<char>) -> Seq<char> {
    "[layout~=\"pb-recursive:"@ + value + "\"] *{\n    padding-bottom: "@ + scaled + ";\n}\n"@
}

/// Adds the rule of `pb-recursive:value`, with `scaled` the value scaled by the
/// harmonic ratio.
pub fn pb_recursive_css(value: &str, scaled: &str, set: &mut RuleSet)
    requires
        old(set).wf(),
    ensures
        final(set).wf(),
        final(set)@ == with_rule(old(set)@, pb_recursive_rule(value@, scaled@)),
{
    let mut r = String::new();
    r.append("[layout~=\"pb-recursive:");
    r.append(value);
    r.append("\"] *{\n    padding-bottom: ");
    r.append(scaled);
    r.append(";\n}\n");
    set.insert(r);
}

/// The rule of `pl-recursive:value`, with `scaled` the value scaled by the
/// harmonic ratio.
pub open spec fn pl_recursive_rule(value: Seq<char>, scaled: Seq<char>) -> Seq<char> {
    "[layout~=\"pl-recursive:"@ + value + "\"] *{\n    padding-left: "@ + scaled + ";\n    --pl: "@
        + scaled + ";\n}\n"@
}

/// Adds the rule of `pl-recursive:value`, with `scaled` the value scaled by the
/// harmonic ratio.
pub fn pl_recursive_css(value: &str, scaled: &str, set: &mut RuleSet)
    requires
        old(set).wf(),
    ensures
        final(set).wf(),
        final(set)@ == with_rule(old(set)@, pl_recursive_rule(value@, scaled@)),
{
    let mut r = String::new();
    r.append("[layout~=\"pl-recursive:");
    r.append(value);
    r.append("\"] *{\n    padding-left: ");
    r.append(scaled);
    r.append(";\n    --pl: ");
    r.append(scaled);
    r.append(";\n}\n");
    set.insert(r);
}

/// The rule of `pr-recursive:value`, with `scaled` the value scaled by the
/// harmonic ratio.
pub open spec fn pr_recursive_rule(value: Seq<char>, scaled: Seq<char>) -> Seq<char> {
    "[layout~=\"pr-recursive:"@ + value + "\"] *{\n    padding-right: "@ + scaled + ";\n    --pr: "@
        + scaled + ";\n}\n"@
}

/// Adds the rule of `pr-recursive:value`, with `scaled` the value scaled by the
/// harmonic ratio.
pub fn pr_recursive_css(value: &str, scaled: &str, set: &mut RuleSet)
    requires
        old(set).wf(),
    ensures
        final(set).wf(),
        final(set)@ == with_rule(old(set)@, pr_recursive_rule(value@, scaled@)),
{
    let mut r = String::new();
    r.append("[layout~=\"pr-recursive:");
    r.append(value);
    r.append("\"] *{\n    padding-right: ");
    r.append(scaled);
    r.append(";\n    --pr: ");
    r.append(scaled);
    r.append(";\n}\n");
    set.insert(r);
}

/// The rule of `px-recursive:value`, with `scaled` the value scaled by the
/// harmonic ratio.
pub open spec fn px_recursive_rule(value: Seq<char>, scaled: Seq<char>) -> Seq<char> {
    "[layout~=\"px-recursive:"@ + value + "\"] *{\n    padding-left: "@ + scaled
        + ";\n    padding-right: "@ + scaled + ";\n    --pl: "@ + scaled + ";\n    --pr: "@ + scaled
        + ";\n}\n"@
}

/// Adds the rule of `px-recursive:value`, with `scaled` the value scaled by the
/// harmonic ratio.
pub fn px_recursive_css(value: &str, scaled: &str, set: &mut RuleSet)
    requires
        old(set).wf(),
    ensures
        final(set).wf(),
        final(set)@ == with_rule(old(set)@, px_recursive_rule(value@, scaled@)),
{
    let mut r = String::new();
    r.append("[layout~=\"px-recursive:");
    r.append(value);
    r.append("\"] *{\n    padding-left: ");
    r.append(scaled);
    r.append(";\n    padding-right: ");
    r.append(scaled);
    r.append(";\n    --pl: ");
    r.append(scaled);
    r.append(";\n    --pr: ");
    r.append(scaled);
    r.append(";\n}\n");
    set.insert(r);
}

/// The rule of `py-recursive:value`, with `scaled` the value scaled by the
/// harmonic ratio.
pub open spec fn py_recursive_rule(value: Seq<char>, scaled: Seq<char>) -> Seq<char> {
    "[layout~=\"py-recursive:"@ + value + "\"] *{\n    padding-top: "@ + scaled
        + ";\n    padding-bottom: "@ + scaled + ";\n}\n"@
}

/// Adds the rule of `py-recursive:value`, with `scaled` the value scaled by the
/// harmonic ratio.
pub fn py_recursive_css(value: &str, scaled: &str, set: &mut RuleSet)
    requires
        old(set).wf(),
    ensures
        final(set).wf(),
        final(set)@ == with_rule(old(set)@, py_recursive_rule(value@, scaled@)),
{
    let mut r = String::new();
    r.append("[layout~=\"py-recursive:");
    r.append(value);
    r.append("\"] *{\n    padding-top: ");
    r.append(scaled);
    r.append(";\n    padding-bottom: ");
    r.append(scaled);
    r.append(";\n}\n");
    set.insert(r);
}

/// The rule of `font-size:value`, with `scaled` the value scaled by the
/// harmonic ratio.
pub open spec fn font_size_rule(value: Seq<char>, scaled: Seq<char>) -> Seq<char> {
    "[layout~=\"font-size:"@ + value + "\"]{\n    font-size: "@ + scaled + ";\n}\n"@
}

/// Adds the rule of `font-size:value`, with `scaled` the value scaled by the
/// harmonic ratio.
pub fn font_size_css(value: &str, scaled: &str, set: &mut RuleSet)
    requires
        old(set).wf(),
    ensures
        final(set).wf(),
        final(set)@ == with_rule(old(set)@, font_size_rule(value@, scaled@)),
{
    let mut r = String::new();
    r.append("[layout~=\"font-size:");
    r.append(value);
    r.append("\"]{\n    font-size: ");
    r.append(scaled);
    r.append(";\n}\n");
    set.insert(r);
}

} // verus!
