//! The rules of the components and utilities whose CSS is fixed text or
//! takes a value as it is written.
use vstd::prelude::*;

use crate::rules::{with_rules, RuleSet};
use crate::text::{opt_str, str_eq};

verus! {

pub const BOX_STYLE: &'static str = "
  box-l{
    box-sizing: border-box;
    display: block;
    max-inline-size:fit-content;
  }
";

pub const BOX_GROW_STYLE: &'static str = "
  box-l[layout~=\"grow\"] > *{
    width: 100%;
  }
";

pub const CENTER_STYLE: &'static str = "
center-l{
    box-sizing: content-box;
    max-inline-size: fit-content;
    margin-inline: auto;
    display: block;
    text-align: initial;
  }
";

pub const CENTER_AND_TEXT_STYLE: &'static str = "
  center-l[layout~=\"and-text\"]{
    text-align:center;
  }
";

pub const CENTER_RECURSIVE_STYLE: &'static str = "
  center-l[layout~=\"recursive\"]{
    display:flex;
    flex-direction:column;
    align-items:center;
  }
";

pub const EXTENDER_STYLE: &'static str = "
  extender-l{
    display:block;
    width: calc(100% + var(--pr) + var(--pl));
    margin-inline-start: calc(0px - var(--pl));
    margin-inline-end: calc(0px - var(--pr));
  }
";

pub const EXTENDER_SCREEN_STYLE: &'static str = "
  extender-l[layout~=screen]{
    width: 100vw;
    position: relative;
    margin-left: -50vw;
    margin-right: -50vw;
    left: 50%;
    right: 50%;
  }
  ";

pub const EXTENDER_KEEP_CENTER_STYLE: &'static str = "
  extender-l[layout~=\"keep-center\"] > *{
    box-sizing: content-box;
    max-inline-size: var(--center-max-width);
    margin-inline: auto;
  }
  ";

pub const EXTENDER_KEEP_P_STYLE: &'static str = "
  extender-l[layout~=\"keep-p\"] {
    padding-right: var(--pr);
    padding-left: var(--pl);
  }
";

pub const EXTENDER_KEEP_PL_STYLE: &'static str = "
  extender-l[layout~=\"keep-pl\"] {
    padding-left: var(--pl);
    padding-right: unset;
  }
";

pub const EXTENDER_KEEP_PR_STYLE: &'static str = "
  extender-l[layout~=\"keep-pr\"] {
    padding-right: var(--pr);
    padding-left: unset;
  }
";

pub const RELATIVE_STYLE: &'static str = "
    [layout~=\"relative\"] {
        position: relative;
        min-height: 1px;
    }
";

/// Just `r` where `b` holds, else nothing.
pub open spec fn rule_if(b: bool, r: Seq<char>) -> Seq<Seq<char>> {
    if b {
        seq![r]
    } else {
        Seq::empty()
    }
}

/// The rule that gives a box its maximal width.
pub open spec fn box_max_width_rule(v: Seq<char>) -> Seq<char> {
    "box-l[layout~=\"max-width:"@ + v + "\"]{\n    max-inline-size:"@ + v + ";\n}\n"@
}

/// The rule that gives a centered block its maximal width.
pub open spec fn center_max_width_rule(v: Seq<char>) -> Seq<char> {
    "center-l[layout~=\"max-width:"@ + v + "\"]{\n    max-inline-size: "@ + v
        + ";\n    --center-max-width: "@ + v + ";\n}\n"@
}

/// The rules of a box, in the order they are added.
pub open spec fn box_rules(max_width: Option<Seq<char>>, grow: bool) -> Seq<Seq<char>> {
    seq![BOX_STYLE@] + match max_width {
        Some(v) => seq![box_max_width_rule(v)],
        None => Seq::empty(),
    } + rule_if(grow, BOX_GROW_STYLE@)
}

/// The rules of a centered block, in the order they are added.
pub open spec fn center_rules(max_width: Option<Seq<char>>, and_text: bool, recursive: bool) -> Seq<
    Seq<char>,
> {
    seq![CENTER_STYLE@] + match max_width {
        Some(v) => seq![center_max_width_rule(v)],
        None => Seq::empty(),
    } + rule_if(and_text, CENTER_AND_TEXT_STYLE@) + rule_if(recursive, CENTER_RECURSIVE_STYLE@)
}

/// The rules of an extender, in the order they are added.
pub open spec fn extender_rules(
    screen: bool,
    keep_center: bool,
    keep_p: bool,
    keep_pl: bool,
    keep_pr: bool,
) -> Seq<Seq<char>> {
    seq![EXTENDER_STYLE@] + rule_if(screen, EXTENDER_SCREEN_STYLE@) + rule_if(
        keep_center,
        EXTENDER_KEEP_CENTER_STYLE@,
    ) + rule_if(keep_p, EXTENDER_KEEP_P_STYLE@) + rule_if(keep_pl, EXTENDER_KEEP_PL_STYLE@) + rule_if(
        keep_pr,
        EXTENDER_KEEP_PR_STYLE@,
    )
}

/// The rule that `f` gives for `o`, where `o` is given.
pub open spec fn maybe_with(o: Option<Seq<char>>, f: spec_fn(Seq<char>) -> Seq<char>) -> Seq<
    Seq<char>,
> {
    match o {
        Some(v) => seq![f(v)],
        None => Seq::empty(),
    }
}

/// The rule that `f` gives for a value and its scaled form, where given.
pub open spec fn maybe_scaled(
    o: Option<(Seq<char>, Seq<char>)>,
    f: spec_fn(Seq<char>, Seq<char>) -> Seq<char>,
) -> Seq<Seq<char>> {
    match o {
        Some((v, s)) => seq![f(v, s)],
        None => Seq::empty(),
    }
}

/// The characters of each string of a list.
pub open spec fn texts(l: Seq<String>) -> Seq<Seq<char>> {
    l.map_values(|r: String| r@)
}

/// Appends `r` where `b` holds.
pub(crate) fn push_when(rules: &mut Vec<String>, b: bool, r: &str)
    ensures
        texts(final(rules)@) == texts(old(rules)@) + rule_if(b, r@),
{
    let ghost before = rules@;
    if b {
        rules.push(owned(r));
        assert(texts(rules@) =~= texts(before) + rule_if(b, r@));
    } else {
        assert(texts(rules@) =~= texts(before) + rule_if(b, r@));
    }
}

/// Appends `r` where it is given.
pub(crate) fn push_maybe(rules: &mut Vec<String>, r: Option<String>)
    ensures
        texts(final(rules)@) == texts(old(rules)@) + match r {
            Some(x) => seq![x@],
            None => Seq::<Seq<char>>::empty(),
        },
{
    let ghost before = rules@;
    match r {
        Some(x) => {
            let ghost v = x@;
            rules.push(x);
            assert(texts(rules@) =~= texts(before) + seq![v]);
        },
        None => {
            assert(texts(rules@) =~= texts(before) + Seq::<Seq<char>>::empty());
        },
    }
}

/// Adds each of `rules` in order.
pub(crate) fn add_all(set: &mut RuleSet, rules: Vec<String>)
    requires
        old(set).wf(),
    ensures
        final(set).wf(),
        final(set)@ == with_rules(old(set)@, rules@.map_values(|r: String| r@)),
{
    let ghost start = set@;
    let ghost rs = rules@.map_values(|r: String| r@);
    let mut i: usize = 0;
    let n = rules.len();
    let mut rules = rules;
    assert(rs.take(0) =~= Seq::<Seq<char>>::empty());
    while i < n
        invariant
            set.wf(),
            n == rs.len(),
            i <= n,
            rules.len() == n - i,
            forall|k: int| 0 <= k < n - i ==> (#[trigger] rules@[k])@ == rs[i + k],
            set@ == with_rules(start, rs.take(i as int)),
        decreases n - i,
    {
        let r = rules.remove(0);
        assert(r@ == rs[i as int]);
        set.insert(r);
        assert(rs.take(i + 1).drop_last() =~= rs.take(i as int));
        i = i + 1;
    }
    assert(rs.take(n as int) =~= rs);
}

pub(crate) fn owned(s: &str) -> (r: String)
    ensures
        r@ == s@,
{
    s.to_owned()
}

/// Adds the rules of a box: its base rule, the rule of its maximal width,
/// and the rule that lets its child grow.
pub fn box_css(max_width: Option<&str>, grow: bool, set: &mut RuleSet)
    requires
        old(set).wf(),
    ensures
        final(set).wf(),
        final(set)@ == with_rules(old(set)@, box_rules(opt_str(max_width), grow)),
{
    let mut rules: Vec<String> = Vec::new();
    rules.push(owned(BOX_STYLE));
    match max_width {
        Some(v) => {
            let mut r = owned("box-l[layout~=\"max-width:");
            r.append(v);
            r.append("\"]{\n    max-inline-size:");
            r.append(v);
            r.append(";\n}\n");
            rules.push(r);
        },
        None => {},
    }
    if grow {
        rules.push(owned(BOX_GROW_STYLE));
    }
    assert(rules@.map_values(|r: String| r@) =~= box_rules(opt_str(max_width), grow));
    add_all(set, rules);
}

/// Adds the rules of a centered block: its base rule, the rule of its
/// maximal width, and those of centered text and of centered children.
pub fn center_css(max_width: Option<&str>, and_text: bool, recursive: bool, set: &mut RuleSet)
    requires
        old(set).wf(),
    ensures
        final(set).wf(),
        final(set)@ == with_rules(old(set)@, center_rules(opt_str(max_width), and_text, recursive)),
{
    let mut rules: Vec<String> = Vec::new();
    rules.push(owned(CENTER_STYLE));
    match max_width {
        Some(v) => {
            let mut r = owned("center-l[layout~=\"max-width:");
            r.append(v);
            r.append("\"]{\n    max-inline-size: ");
            r.append(v);
            r.append(";\n    --center-max-width: ");
            r.append(v);
            r.append(";\n}\n");
            rules.push(r);
        },
        None => {},
    }
    if and_text {
        rules.push(owned(CENTER_AND_TEXT_STYLE));
    }
    if recursive {
        rules.push(owned(CENTER_RECURSIVE_STYLE));
    }
    assert(rules@.map_values(|r: String| r@) =~= center_rules(
        opt_str(max_width),
        and_text,
        recursive,
    ));
    add_all(set, rules);
}

/// Adds the rules of an extender: its base rule and one for each option set.
pub fn extender_css(
    screen: bool,
    keep_center: bool,
    keep_p: bool,
    keep_pl: bool,
    keep_pr: bool,
    set: &mut RuleSet,
)
    requires
        old(set).wf(),
    ensures
        final(set).wf(),
        final(set)@ == with_rules(
            old(set)@,
            extender_rules(screen, keep_center, keep_p, keep_pl, keep_pr),
        ),
{
    let mut rules: Vec<String> = Vec::new();
    rules.push(owned(EXTENDER_STYLE));
    if screen {
        rules.push(owned(EXTENDER_SCREEN_STYLE));
    }
    if keep_center {
        rules.push(owned(EXTENDER_KEEP_CENTER_STYLE));
    }
    if keep_p {
        rules.push(owned(EXTENDER_KEEP_P_STYLE));
    }
    if keep_pl {
        rules.push(owned(EXTENDER_KEEP_PL_STYLE));
    }
    if keep_pr {
        rules.push(owned(EXTENDER_KEEP_PR_STYLE));
    }
    assert(rules@.map_values(|r: String| r@) =~= extender_rules(
        screen,
        keep_center,
        keep_p,
        keep_pl,
        keep_pr,
    ));
    add_all(set, rules);
}

/// Adds the rule of the `relative` utility.
pub fn relative_css(set: &mut RuleSet)
    requires
        old(set).wf(),
    ensures
        final(set).wf(),
        final(set)@ == crate::rules::with_rule(old(set)@, RELATIVE_STYLE@),
{
    set.insert(owned(RELATIVE_STYLE));
}

/// The attribute selector `[layout*="name:v"]` where `v` is given.
pub open spec fn contains_selector(name: Seq<char>, v: Option<Seq<char>>) -> Seq<char> {
    match v {
        Some(x) => "[layout*=\""@ + name + ":"@ + x + "\"]"@,
        None => Seq::empty(),
    }
}

/// Whether the side of a sidebar is its first child: unless a side other
/// than `left` is given.
pub open spec fn side_first(side: Option<Seq<char>>) -> bool {
    match side {
        Some(v) => v == "left"@,
        None => true,
    }
}

/// The rule that sizes the two children of a sidebar: the side gets
/// `side-width` (else `auto`), the content at least `content-min` (else
/// `50%`); none where no one of the three is given.
pub open spec fn sidebar_group(
    side: Option<Seq<char>>,
    side_width: Option<Seq<char>>,
    content_min: Option<Seq<char>>,
) -> Option<Seq<char>> {
    if side is None && side_width is None && content_min is None {
        None
    } else {
        let selector = "sidebar-l"@ + contains_selector("side"@, side) + contains_selector(
            "side-width"@,
            side_width,
        ) + contains_selector("content-min"@, content_min);
        let (one, two) = if side_first(side) {
            (":first-child"@, ":last-child"@)
        } else {
            (":last-child"@, ":first-child"@)
        };
        let width = match side_width {
            Some(v) => v,
            None => "auto"@,
        };
        let least = match content_min {
            Some(v) => v,
            None => "50%"@,
        };
        Some(
            selector + " > "@ + one + ":not(outsider-l) {\n      flex-basis: "@ + width
                + ";\n      flex-grow: 1;\n      min-inline-size: initial;\n      min-width:0;\n      min-height:0;\n}\n\n"@
                + selector + " > "@ + two
                + ":not(outsider-l) {\n        flex-basis: 0;\n        flex-grow: 999;\n        min-inline-size: "@
                + least + ";\n}\n"@,
        )
    }
}

fn push_contains_selector(out: &mut String, name: &str, v: Option<&str>)
    ensures
        final(out)@ == old(out)@ + contains_selector(name@, opt_str(v)),
{
    match v {
        Some(x) => {
            out.append("[layout*=\"");
            out.append(name);
            out.append(":");
            out.append(x);
            out.append("\"]");
        },
        None => {
            assert(old(out)@ + Seq::<char>::empty() =~= old(out)@);
        },
    }
}

/// The rule that sizes the two children of a sidebar; `None` where no one of
/// `side`, `side_width` and `content_min` is given.
pub fn sidebar_group_rule(side: Option<&str>, side_width: Option<&str>, content_min: Option<&str>) -> (r:
    Option<String>)
    ensures
        match r {
            Some(t) => sidebar_group(opt_str(side), opt_str(side_width), opt_str(content_min))
                == Some(t@),
            None => sidebar_group(opt_str(side), opt_str(side_width), opt_str(content_min)) is None,
        },
{
    if side.is_none() && side_width.is_none() && content_min.is_none() {
        return None;
    }
    let mut selector = String::new();
    selector.append("sidebar-l");
    push_contains_selector(&mut selector, "side", side);
    push_contains_selector(&mut selector, "side-width", side_width);
    push_contains_selector(&mut selector, "content-min", content_min);
    let first = match side {
        Some(v) => str_eq(v, "left"),
        None => true,
    };
    let (one, two) = if first {
        (":first-child", ":last-child")
    } else {
        (":last-child", ":first-child")
    };
    let width = match side_width {
        Some(v) => v,
        None => "auto",
    };
    let least = match content_min {
        Some(v) => v,
        None => "50%",
    };
    let mut r = String::new();
    r.append(selector.as_str());
    r.append(" > ");
    r.append(one);
    r.append(":not(outsider-l) {\n      flex-basis: ");
    r.append(width);
    r.append(
        ";\n      flex-grow: 1;\n      min-inline-size: initial;\n      min-width:0;\n      min-height:0;\n}\n\n",
    );
    r.append(selector.as_str());
    r.append(" > ");
    r.append(two);
    r.append(":not(outsider-l) {\n        flex-basis: 0;\n        flex-grow: 999;\n        min-inline-size: ");
    r.append(least);
    r.append(";\n}\n");
    Some(r)
}

/// The rule that keeps the children of a shrinking sidebar at their own
/// height: aligned to the end where the sidebar is reversed, else to the
/// start.
pub open spec fn sidebar_shrink(reverse: bool) -> Seq<char> {
    "sidebar-l[layout~=shrink]{\n    align-items: flex-"@ + if reverse {
        "end"@
    } else {
        "start"@
    } + ";\n}\n"@
}

/// The rule that keeps the children of a shrinking sidebar at their own
/// height.
pub fn sidebar_shrink_rule(reverse: bool) -> (r: String)
    ensures
        r@ == sidebar_shrink(reverse),
{
    let mut r = String::new();
    r.append("sidebar-l[layout~=shrink]{\n    align-items: flex-");
    r.append(if reverse { "end" } else { "start" });
    r.append(";\n}\n");
    r
}

} // verus!
