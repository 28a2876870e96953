//! The rules of the components whose values may be scaled by the harmonic
//! ratio: such a value comes as written and as scaled.
use vstd::prelude::*;

use crate::render::{
    add_all, maybe_scaled, maybe_with, owned, push_maybe, push_when, rule_if, texts,
};
use crate::rules::{with_rules, RuleSet};
use crate::render::{sidebar_group, sidebar_group_rule, sidebar_shrink, sidebar_shrink_rule};
use crate::styles::{
    icon_align_style, icon_align_text, icon_group_style, icon_group_text, icon_scale_style,
    icon_scale_text, sidebar_gap_style, sidebar_gap_text, sidebar_gap_x_style, sidebar_gap_x_text,
    sidebar_gap_y_style, sidebar_gap_y_text, stack_gap_style, stack_gap_text, stack_recursive_style,
    stack_recursive_text,
};
use crate::styles::{
    ledge_align_style, ledge_align_text, ledge_direction_style, ledge_direction_text,
    ledge_gap_style, ledge_gap_text, ledge_gap_x_style, ledge_gap_x_text,
    ledge_gap_y_style, ledge_gap_y_text, ledge_justify_style, ledge_justify_text,
    outsider_bottom_style, outsider_bottom_text, outsider_left_style, outsider_left_text,
    outsider_position_style, outsider_position_text, outsider_right_style, outsider_right_text,
    outsider_top_style, outsider_top_text, rack_gap_style, rack_gap_text,
    rack_height_style, rack_height_text, rack_max_height_style, rack_max_height_text,
    rack_min_height_style, rack_min_height_text, row_align_style, row_align_text,
    row_direction_style, row_direction_text, row_gap_style, row_gap_text,
    row_gap_x_style, row_gap_x_text, row_gap_y_style, row_gap_y_text,
    row_justify_style, row_justify_text, slider_gap_style, slider_gap_text,
    slider_height_style, slider_height_text, slider_item_width_style, slider_item_width_text,
    switcher_gap_style, switcher_gap_text, switcher_gap_x_style, switcher_gap_x_text,
    switcher_gap_y_style, switcher_gap_y_text, switcher_limit_style, switcher_limit_text,
    switcher_threshold_style, switcher_threshold_text,
};
use crate::text::opt_str;

verus! {

/// The plain value of an optional value with its scaled form.
pub open spec fn scaled_view(o: Option<(&str, String)>) -> Option<(Seq<char>, Seq<char>)> {
    match o {
        Some((v, s)) => Some((v@, s@)),
        None => None,
    }
}

pub const LEDGE_STYLE: &'static str = "\n  ledge-l{\n    display:flex;\n    flex-wrap: wrap;\n  }\n  ledge-l > * {\n    min-width: 0;\n  }\n";

pub const LEDGE_NO_WRAP_STYLE: &'static str = "\n  ledge-l[layout~=\"nowrap\"]  {\n      flex-wrap:nowrap;\n  }\n";

pub const LEDGE_TWIN_WIDTH_STYLE: &'static str = "\n  ledge-l[layout~=\"twin-width\"] > * {\n      flex-grow:1;\n      flex-basis:0;\n      min-width: 0;\n  }\n";

/// The rules of a ledge, in the order they are added.
pub open spec fn ledge_rules(
    nowrap: bool,
    twin_width: bool,
    direction: Option<Seq<char>>,
    justify: Option<Seq<char>>,
    align: Option<Seq<char>>,
    gap: Option<(Seq<char>, Seq<char>)>,
    gap_x: Option<(Seq<char>, Seq<char>)>,
    gap_y: Option<(Seq<char>, Seq<char>)>,
) -> Seq<Seq<char>> {
    seq![LEDGE_STYLE@]
        + rule_if(nowrap, LEDGE_NO_WRAP_STYLE@)
        + rule_if(twin_width, LEDGE_TWIN_WIDTH_STYLE@)
        + maybe_with(direction, |v: Seq<char>| ledge_direction_text(v))
        + maybe_with(justify, |v: Seq<char>| ledge_justify_text(v))
        + maybe_with(align, |v: Seq<char>| ledge_align_text(v))
        + maybe_scaled(gap, |v: Seq<char>, s: Seq<char>| ledge_gap_text(v, s))
        + maybe_scaled(gap_x, |v: Seq<char>, s: Seq<char>| ledge_gap_x_text(v, s))
        + maybe_scaled(gap_y, |v: Seq<char>, s: Seq<char>| ledge_gap_y_text(v, s))
}

/// Adds the rules of a ledge: its base rule and one for each field set.
pub fn ledge_css(
    nowrap: bool,
    twin_width: bool,
    direction: Option<&str>,
    justify: Option<&str>,
    align: Option<&str>,
    gap: Option<(&str, String)>,
    gap_x: Option<(&str, String)>,
    gap_y: Option<(&str, String)>,
    set: &mut RuleSet,
)
    requires
        old(set).wf(),
    ensures
        final(set).wf(),
        final(set)@ == with_rules(
            old(set)@,
            ledge_rules(
                nowrap,
                twin_width,
                opt_str(direction),
                opt_str(justify),
                opt_str(align),
                scaled_view(gap),
                scaled_view(gap_x),
                scaled_view(gap_y),
            ),
        ),
{
    let mut rules: Vec<String> = Vec::new();
    rules.push(owned(LEDGE_STYLE));
    push_when(&mut rules, nowrap, LEDGE_NO_WRAP_STYLE);
    assert(texts(rules@) =~= seq![LEDGE_STYLE@]
        + rule_if(nowrap, LEDGE_NO_WRAP_STYLE@));
    push_when(&mut rules, twin_width, LEDGE_TWIN_WIDTH_STYLE);
    assert(texts(rules@) =~= seq![LEDGE_STYLE@]
        + rule_if(nowrap, LEDGE_NO_WRAP_STYLE@)
        + rule_if(twin_width, LEDGE_TWIN_WIDTH_STYLE@));
    push_maybe(
        &mut rules,
        match direction {
            Some(v) => Some(ledge_direction_style(v)),
            None => None,
        },
    );
    assert(texts(rules@) =~= seq![LEDGE_STYLE@]
        + rule_if(nowrap, LEDGE_NO_WRAP_STYLE@)
        + rule_if(twin_width, LEDGE_TWIN_WIDTH_STYLE@)
        + maybe_with(opt_str(direction), |v: Seq<char>| ledge_direction_text(v)));
    push_maybe(
        &mut rules,
        match justify {
            Some(v) => Some(ledge_justify_style(v)),
            None => None,
        },
    );
    assert(texts(rules@) =~= seq![LEDGE_STYLE@]
        + rule_if(nowrap, LEDGE_NO_WRAP_STYLE@)
        + rule_if(twin_width, LEDGE_TWIN_WIDTH_STYLE@)
        + maybe_with(opt_str(direction), |v: Seq<char>| ledge_direction_text(v))
        + maybe_with(opt_str(justify), |v: Seq<char>| ledge_justify_text(v)));
    push_maybe(
        &mut rules,
        match align {
            Some(v) => Some(ledge_align_style(v)),
            None => None,
        },
    );
    assert(texts(rules@) =~= seq![LEDGE_STYLE@]
        + rule_if(nowrap, LEDGE_NO_WRAP_STYLE@)
        + rule_if(twin_width, LEDGE_TWIN_WIDTH_STYLE@)
        + maybe_with(opt_str(direction), |v: Seq<char>| ledge_direction_text(v))
        + maybe_with(opt_str(justify), |v: Seq<char>| ledge_justify_text(v))
        + maybe_with(opt_str(align), |v: Seq<char>| ledge_align_text(v)));
    push_maybe(
        &mut rules,
        match gap {
            Some((v, s)) => Some(ledge_gap_style(v, s)),
            None => None,
        },
    );
    assert(texts(rules@) =~= seq![LEDGE_STYLE@]
        + rule_if(nowrap, LEDGE_NO_WRAP_STYLE@)
        + rule_if(twin_width, LEDGE_TWIN_WIDTH_STYLE@)
        + maybe_with(opt_str(direction), |v: Seq<char>| ledge_direction_text(v))
        + maybe_with(opt_str(justify), |v: Seq<char>| ledge_justify_text(v))
        + maybe_with(opt_str(align), |v: Seq<char>| ledge_align_text(v))
        + maybe_scaled(scaled_view(gap), |v: Seq<char>, s: Seq<char>| ledge_gap_text(v, s)));
    push_maybe(
        &mut rules,
        match gap_x {
            Some((v, s)) => Some(ledge_gap_x_style(v, s)),
            None => None,
        },
    );
    assert(texts(rules@) =~= seq![LEDGE_STYLE@]
        + rule_if(nowrap, LEDGE_NO_WRAP_STYLE@)
        + rule_if(twin_width, LEDGE_TWIN_WIDTH_STYLE@)
        + maybe_with(opt_str(direction), |v: Seq<char>| ledge_direction_text(v))
        + maybe_with(opt_str(justify), |v: Seq<char>| ledge_justify_text(v))
        + maybe_with(opt_str(align), |v: Seq<char>| ledge_align_text(v))
        + maybe_scaled(scaled_view(gap), |v: Seq<char>, s: Seq<char>| ledge_gap_text(v, s))
        + maybe_scaled(scaled_view(gap_x), |v: Seq<char>, s: Seq<char>| ledge_gap_x_text(v, s)));
    push_maybe(
        &mut rules,
        match gap_y {
            Some((v, s)) => Some(ledge_gap_y_style(v, s)),
            None => None,
        },
    );
    assert(texts(rules@) =~= ledge_rules(
        nowrap,
        twin_width,
        opt_str(direction),
        opt_str(justify),
        opt_str(align),
        scaled_view(gap),
        scaled_view(gap_x),
        scaled_view(gap_y),
    ));
    add_all(set, rules);
}

pub const ROW_STYLE: &'static str = "\n  row-l{\n    display:flex;\n    flex-wrap: wrap;\n  }\n  row-l > * {\n    min-width: 0;\n  }\n";

pub const ROW_NO_WRAP_STYLE: &'static str = "\n  row-l[layout~=\"nowrap\"]  {\n      flex-wrap:nowrap;\n  }\n";

pub const ROW_TWIN_WIDTH_STYLE: &'static str = "\n  row-l[layout~=\"twin-width\"] > * {\n      flex-grow:1;\n      flex-basis:0;\n      min-width: 0;\n  }\n";

/// The rules of a row, in the order they are added.
pub open spec fn row_rules(
    nowrap: bool,
    twin_width: bool,
    direction: Option<Seq<char>>,
    justify: Option<Seq<char>>,
    align: Option<Seq<char>>,
    gap: Option<(Seq<char>, Seq<char>)>,
    gap_x: Option<(Seq<char>, Seq<char>)>,
    gap_y: Option<(Seq<char>, Seq<char>)>,
) -> Seq<Seq<char>> {
    seq![ROW_STYLE@]
        + rule_if(nowrap, ROW_NO_WRAP_STYLE@)
        + rule_if(twin_width, ROW_TWIN_WIDTH_STYLE@)
        + maybe_with(direction, |v: Seq<char>| row_direction_text(v))
        + maybe_with(justify, |v: Seq<char>| row_justify_text(v))
        + maybe_with(align, |v: Seq<char>| row_align_text(v))
        + maybe_scaled(gap, |v: Seq<char>, s: Seq<char>| row_gap_text(v, s))
        + maybe_scaled(gap_x, |v: Seq<char>, s: Seq<char>| row_gap_x_text(v, s))
        + maybe_scaled(gap_y, |v: Seq<char>, s: Seq<char>| row_gap_y_text(v, s))
}

/// Adds the rules of a row: its base rule and one for each field set.
pub fn row_css(
    nowrap: bool,
    twin_width: bool,
    direction: Option<&str>,
    justify: Option<&str>,
    align: Option<&str>,
    gap: Option<(&str, String)>,
    gap_x: Option<(&str, String)>,
    gap_y: Option<(&str, String)>,
    set: &mut RuleSet,
)
    requires
        old(set).wf(),
    ensures
        final(set).wf(),
        final(set)@ == with_rules(
            old(set)@,
            row_rules(
                nowrap,
                twin_width,
                opt_str(direction),
                opt_str(justify),
                opt_str(align),
                scaled_view(gap),
                scaled_view(gap_x),
                scaled_view(gap_y),
            ),
        ),
{
    let mut rules: Vec<String> = Vec::new();
    rules.push(owned(ROW_STYLE));
    push_when(&mut rules, nowrap, ROW_NO_WRAP_STYLE);
    assert(texts(rules@) =~= seq![ROW_STYLE@]
        + rule_if(nowrap, ROW_NO_WRAP_STYLE@));
    push_when(&mut rules, twin_width, ROW_TWIN_WIDTH_STYLE);
    assert(texts(rules@) =~= seq![ROW_STYLE@]
        + rule_if(nowrap, ROW_NO_WRAP_STYLE@)
        + rule_if(twin_width, ROW_TWIN_WIDTH_STYLE@));
    push_maybe(
        &mut rules,
        match direction {
            Some(v) => Some(row_direction_style(v)),
            None => None,
        },
    );
    assert(texts(rules@) =~= seq![ROW_STYLE@]
        + rule_if(nowrap, ROW_NO_WRAP_STYLE@)
        + rule_if(twin_width, ROW_TWIN_WIDTH_STYLE@)
        + maybe_with(opt_str(direction), |v: Seq<char>| row_direction_text(v)));
    push_maybe(
        &mut rules,
        match justify {
            Some(v) => Some(row_justify_style(v)),
            None => None,
        },
    );
    assert(texts(rules@) =~= seq![ROW_STYLE@]
        + rule_if(nowrap, ROW_NO_WRAP_STYLE@)
        + rule_if(twin_width, ROW_TWIN_WIDTH_STYLE@)
        + maybe_with(opt_str(direction), |v: Seq<char>| row_direction_text(v))
        + maybe_with(opt_str(justify), |v: Seq<char>| row_justify_text(v)));
    push_maybe(
        &mut rules,
        match align {
            Some(v) => Some(row_align_style(v)),
            None => None,
        },
    );
    assert(texts(rules@) =~= seq![ROW_STYLE@]
        + rule_if(nowrap, ROW_NO_WRAP_STYLE@)
        + rule_if(twin_width, ROW_TWIN_WIDTH_STYLE@)
        + maybe_with(opt_str(direction), |v: Seq<char>| row_direction_text(v))
        + maybe_with(opt_str(justify), |v: Seq<char>| row_justify_text(v))
        + maybe_with(opt_str(align), |v: Seq<char>| row_align_text(v)));
    push_maybe(
        &mut rules,
        match gap {
            Some((v, s)) => Some(row_gap_style(v, s)),
            None => None,
        },
    );
    assert(texts(rules@) =~= seq![ROW_STYLE@]
        + rule_if(nowrap, ROW_NO_WRAP_STYLE@)
        + rule_if(twin_width, ROW_TWIN_WIDTH_STYLE@)
        + maybe_with(opt_str(direction), |v: Seq<char>| row_direction_text(v))
        + maybe_with(opt_str(justify), |v: Seq<char>| row_justify_text(v))
        + maybe_with(opt_str(align), |v: Seq<char>| row_align_text(v))
        + maybe_scaled(scaled_view(gap), |v: Seq<char>, s: Seq<char>| row_gap_text(v, s)));
    push_maybe(
        &mut rules,
        match gap_x {
            Some((v, s)) => Some(row_gap_x_style(v, s)),
            None => None,
        },
    );
    assert(texts(rules@) =~= seq![ROW_STYLE@]
        + rule_if(nowrap, ROW_NO_WRAP_STYLE@)
        + rule_if(twin_width, ROW_TWIN_WIDTH_STYLE@)
        + maybe_with(opt_str(direction), |v: Seq<char>| row_direction_text(v))
        + maybe_with(opt_str(justify), |v: Seq<char>| row_justify_text(v))
        + maybe_with(opt_str(align), |v: Seq<char>| row_align_text(v))
        + maybe_scaled(scaled_view(gap), |v: Seq<char>, s: Seq<char>| row_gap_text(v, s))
        + maybe_scaled(scaled_view(gap_x), |v: Seq<char>, s: Seq<char>| row_gap_x_text(v, s)));
    push_maybe(
        &mut rules,
        match gap_y {
            Some((v, s)) => Some(row_gap_y_style(v, s)),
            None => None,
        },
    );
    assert(texts(rules@) =~= row_rules(
        nowrap,
        twin_width,
        opt_str(direction),
        opt_str(justify),
        opt_str(align),
        scaled_view(gap),
        scaled_view(gap_x),
        scaled_view(gap_y),
    ));
    add_all(set, rules);
}

pub const OUTSIDER_STYLE: &'static str = "\n  outsider-l{\n    display:block;\n  }\n";

/// The rules of an outsider, in the order they are added.
pub open spec fn outsider_rules(
    position: Option<Seq<char>>,
    top: Option<(Seq<char>, Seq<char>)>,
    bottom: Option<(Seq<char>, Seq<char>)>,
    left: Option<(Seq<char>, Seq<char>)>,
    right: Option<(Seq<char>, Seq<char>)>,
) -> Seq<Seq<char>> {
    seq![OUTSIDER_STYLE@]
        + maybe_with(position, |v: Seq<char>| outsider_position_text(v))
        + maybe_scaled(top, |v: Seq<char>, s: Seq<char>| outsider_top_text(v, s))
        + maybe_scaled(bottom, |v: Seq<char>, s: Seq<char>| outsider_bottom_text(v, s))
        + maybe_scaled(left, |v: Seq<char>, s: Seq<char>| outsider_left_text(v, s))
        + maybe_scaled(right, |v: Seq<char>, s: Seq<char>| outsider_right_text(v, s))
}

/// Adds the rules of an outsider: its base rule and one for each field set.
pub fn outsider_css(
    position: Option<&str>,
    top: Option<(&str, String)>,
    bottom: Option<(&str, String)>,
    left: Option<(&str, String)>,
    right: Option<(&str, String)>,
    set: &mut RuleSet,
)
    requires
        old(set).wf(),
    ensures
        final(set).wf(),
        final(set)@ == with_rules(
            old(set)@,
            outsider_rules(
                opt_str(position),
                scaled_view(top),
                scaled_view(bottom),
                scaled_view(left),
                scaled_view(right),
            ),
        ),
{
    let mut rules: Vec<String> = Vec::new();
    rules.push(owned(OUTSIDER_STYLE));
    push_maybe(
        &mut rules,
        match position {
            Some(v) => Some(outsider_position_style(v)),
            None => None,
        },
    );
    assert(texts(rules@) =~= seq![OUTSIDER_STYLE@]
        + maybe_with(opt_str(position), |v: Seq<char>| outsider_position_text(v)));
    push_maybe(
        &mut rules,
        match top {
            Some((v, s)) => Some(outsider_top_style(v, s)),
            None => None,
        },
    );
    assert(texts(rules@) =~= seq![OUTSIDER_STYLE@]
        + maybe_with(opt_str(position), |v: Seq<char>| outsider_position_text(v))
        + maybe_scaled(scaled_view(top), |v: Seq<char>, s: Seq<char>| outsider_top_text(v, s)));
    push_maybe(
        &mut rules,
        match bottom {
            Some((v, s)) => Some(outsider_bottom_style(v, s)),
            None => None,
        },
    );
    assert(texts(rules@) =~= seq![OUTSIDER_STYLE@]
        + maybe_with(opt_str(position), |v: Seq<char>| outsider_position_text(v))
        + maybe_scaled(scaled_view(top), |v: Seq<char>, s: Seq<char>| outsider_top_text(v, s))
        + maybe_scaled(scaled_view(bottom), |v: Seq<char>, s: Seq<char>| outsider_bottom_text(v, s)));
    push_maybe(
        &mut rules,
        match left {
            Some((v, s)) => Some(outsider_left_style(v, s)),
            None => None,
        },
    );
    assert(texts(rules@) =~= seq![OUTSIDER_STYLE@]
        + maybe_with(opt_str(position), |v: Seq<char>| outsider_position_text(v))
        + maybe_scaled(scaled_view(top), |v: Seq<char>, s: Seq<char>| outsider_top_text(v, s))
        + maybe_scaled(scaled_view(bottom), |v: Seq<char>, s: Seq<char>| outsider_bottom_text(v, s))
        + maybe_scaled(scaled_view(left), |v: Seq<char>, s: Seq<char>| outsider_left_text(v, s)));
    push_maybe(
        &mut rules,
        match right {
            Some((v, s)) => Some(outsider_right_style(v, s)),
            None => None,
        },
    );
    assert(texts(rules@) =~= outsider_rules(
        opt_str(position),
        scaled_view(top),
        scaled_view(bottom),
        scaled_view(left),
        scaled_view(right),
    ));
    add_all(set, rules);
}

pub const RACK_STYLE: &'static str = "\n  rack-l{\n    display:flex;\n    flex-direction:column;\n  }\n\n  rack-l > [layout~=\"centered\"]{\n      margin-block: auto;\n  }\n\n  rack-l > :first-child:not([layout~=\"centered\"]):not(outsider-l[layout~=\"disinherit\"]) {\n      margin-block-start: 0;\n  }\n\n  rack-l > :last-child:not([layout~=\"centered\"]):not(outsider-l[layout~=\"disinherit\"]) {\n      margin-block-end: 0;\n  }\n";

/// The rules of a rack, in the order they are added.
pub open spec fn rack_rules(
    height: Option<(Seq<char>, Seq<char>)>,
    min_height: Option<(Seq<char>, Seq<char>)>,
    max_height: Option<(Seq<char>, Seq<char>)>,
    gap: Option<(Seq<char>, Seq<char>)>,
) -> Seq<Seq<char>> {
    seq![RACK_STYLE@]
        + maybe_scaled(height, |v: Seq<char>, s: Seq<char>| rack_height_text(v, s))
        + maybe_scaled(min_height, |v: Seq<char>, s: Seq<char>| rack_min_height_text(v, s))
        + maybe_scaled(max_height, |v: Seq<char>, s: Seq<char>| rack_max_height_text(v, s))
        + maybe_scaled(gap, |v: Seq<char>, s: Seq<char>| rack_gap_text(v, s))
}

/// Adds the rules of a rack: its base rule and one for each field set.
pub fn rack_css(
    height: Option<(&str, String)>,
    min_height: Option<(&str, String)>,
    max_height: Option<(&str, String)>,
    gap: Option<(&str, String)>,
    set: &mut RuleSet,
)
    requires
        old(set).wf(),
    ensures
        final(set).wf(),
        final(set)@ == with_rules(
            old(set)@,
            rack_rules(
                scaled_view(height),
                scaled_view(min_height),
                scaled_view(max_height),
                scaled_view(gap),
            ),
        ),
{
    let mut rules: Vec<String> = Vec::new();
    rules.push(owned(RACK_STYLE));
    push_maybe(
        &mut rules,
        match height {
            Some((v, s)) => Some(rack_height_style(v, s)),
            None => None,
        },
    );
    assert(texts(rules@) =~= seq![RACK_STYLE@]
        + maybe_scaled(scaled_view(height), |v: Seq<char>, s: Seq<char>| rack_height_text(v, s)));
    push_maybe(
        &mut rules,
        match min_height {
            Some((v, s)) => Some(rack_min_height_style(v, s)),
            None => None,
        },
    );
    assert(texts(rules@) =~= seq![RACK_STYLE@]
        + maybe_scaled(scaled_view(height), |v: Seq<char>, s: Seq<char>| rack_height_text(v, s))
        + maybe_scaled(scaled_view(min_height), |v: Seq<char>, s: Seq<char>| rack_min_height_text(v, s)));
    push_maybe(
        &mut rules,
        match max_height {
            Some((v, s)) => Some(rack_max_height_style(v, s)),
            None => None,
        },
    );
    assert(texts(rules@) =~= seq![RACK_STYLE@]
        + maybe_scaled(scaled_view(height), |v: Seq<char>, s: Seq<char>| rack_height_text(v, s))
        + maybe_scaled(scaled_view(min_height), |v: Seq<char>, s: Seq<char>| rack_min_height_text(v, s))
        + maybe_scaled(scaled_view(max_height), |v: Seq<char>, s: Seq<char>| rack_max_height_text(v, s)));
    push_maybe(
        &mut rules,
        match gap {
            Some((v, s)) => Some(rack_gap_style(v, s)),
            None => None,
        },
    );
    assert(texts(rules@) =~= rack_rules(
        scaled_view(height),
        scaled_view(min_height),
        scaled_view(max_height),
        scaled_view(gap),
    ));
    add_all(set, rules);
}

pub const SLIDER_STYLE: &'static str = "\n  slider-l{\n    display: flex;\n    block-size: auto;\n    overflow-x: auto;\n    overflow-y: hidden;\n  }\n\n  slider-l > *:not(outsider-l) {\n      flex-shrink: 0;\n      flex-grow: 0;\n      height: auto;\n      min-width: 0px;\n  }\n\n  slider-l > img{\n      object-fit: cover;\n  }\n";

pub const SLIDER_HIDE_BAR_STYLE: &'static str = "\n  slider-l[layout~=\"hide-bar\"]{\n    overflow: hidden;\n  }\n";

/// The rules of a slider, in the order they are added.
pub open spec fn slider_rules(
    hide_bar: bool,
    item_width: Option<Seq<char>>,
    height: Option<Seq<char>>,
    gap: Option<(Seq<char>, Seq<char>)>,
) -> Seq<Seq<char>> {
    seq![SLIDER_STYLE@]
        + rule_if(hide_bar, SLIDER_HIDE_BAR_STYLE@)
        + maybe_with(item_width, |v: Seq<char>| slider_item_width_text(v))
        + maybe_with(height, |v: Seq<char>| slider_height_text(v))
        + maybe_scaled(gap, |v: Seq<char>, s: Seq<char>| slider_gap_text(v, s))
}

/// Adds the rules of a slider: its base rule and one for each field set.
pub fn slider_css(
    hide_bar: bool,
    item_width: Option<&str>,
    height: Option<&str>,
    gap: Option<(&str, String)>,
    set: &mut RuleSet,
)
    requires
        old(set).wf(),
    ensures
        final(set).wf(),
        final(set)@ == with_rules(
            old(set)@,
            slider_rules(
                hide_bar,
                opt_str(item_width),
                opt_str(height),
                scaled_view(gap),
            ),
        ),
{
    let mut rules: Vec<String> = Vec::new();
    rules.push(owned(SLIDER_STYLE));
    push_when(&mut rules, hide_bar, SLIDER_HIDE_BAR_STYLE);
    assert(texts(rules@) =~= seq![SLIDER_STYLE@]
        + rule_if(hide_bar, SLIDER_HIDE_BAR_STYLE@));
    push_maybe(
        &mut rules,
        match item_width {
            Some(v) => Some(slider_item_width_style(v)),
            None => None,
        },
    );
    assert(texts(rules@) =~= seq![SLIDER_STYLE@]
        + rule_if(hide_bar, SLIDER_HIDE_BAR_STYLE@)
        + maybe_with(opt_str(item_width), |v: Seq<char>| slider_item_width_text(v)));
    push_maybe(
        &mut rules,
        match height {
            Some(v) => Some(slider_height_style(v)),
            None => None,
        },
    );
    assert(texts(rules@) =~= seq![SLIDER_STYLE@]
        + rule_if(hide_bar, SLIDER_HIDE_BAR_STYLE@)
        + maybe_with(opt_str(item_width), |v: Seq<char>| slider_item_width_text(v))
        + maybe_with(opt_str(height), |v: Seq<char>| slider_height_text(v)));
    push_maybe(
        &mut rules,
        match gap {
            Some((v, s)) => Some(slider_gap_style(v, s)),
            None => None,
        },
    );
    assert(texts(rules@) =~= slider_rules(
        hide_bar,
        opt_str(item_width),
        opt_str(height),
        scaled_view(gap),
    ));
    add_all(set, rules);
}

pub const SWITCHER_STYLE: &'static str = "\n switcher-l{\n    display: flex;\n    flex-wrap: wrap;\n  }\n\n  switcher-l > *:not(outsider-l){\n      flex-grow: 1;\n  }\n";

pub const SWITCHER_REVERSE_STYLE: &'static str = "\n  switcher-l[layout~=\"reverse\"]{\n    flex-wrap: wrap-reverse;\n  }\n";

/// The rules of a switcher, in the order they are added.
pub open spec fn switcher_rules(
    threshold: Option<Seq<char>>,
    limit: Option<Seq<char>>,
    reverse: bool,
    gap: Option<(Seq<char>, Seq<char>)>,
    gap_x: Option<(Seq<char>, Seq<char>)>,
    gap_y: Option<(Seq<char>, Seq<char>)>,
) -> Seq<Seq<char>> {
    seq![SWITCHER_STYLE@]
        + maybe_with(threshold, |v: Seq<char>| switcher_threshold_text(v))
        + maybe_with(limit, |v: Seq<char>| switcher_limit_text(v))
        + rule_if(reverse, SWITCHER_REVERSE_STYLE@)
        + maybe_scaled(gap, |v: Seq<char>, s: Seq<char>| switcher_gap_text(v, s))
        + maybe_scaled(gap_x, |v: Seq<char>, s: Seq<char>| switcher_gap_x_text(v, s))
        + maybe_scaled(gap_y, |v: Seq<char>, s: Seq<char>| switcher_gap_y_text(v, s))
}

/// Adds the rules of a switcher: its base rule and one for each field set.
pub fn switcher_css(
    threshold: Option<&str>,
    limit: Option<&str>,
    reverse: bool,
    gap: Option<(&str, String)>,
    gap_x: Option<(&str, String)>,
    gap_y: Option<(&str, String)>,
    set: &mut RuleSet,
)
    requires
        old(set).wf(),
    ensures
        final(set).wf(),
        final(set)@ == with_rules(
            old(set)@,
            switcher_rules(
                opt_str(threshold),
                opt_str(limit),
                reverse,
                scaled_view(gap),
                scaled_view(gap_x),
                scaled_view(gap_y),
            ),
        ),
{
    let mut rules: Vec<String> = Vec::new();
    rules.push(owned(SWITCHER_STYLE));
    push_maybe(
        &mut rules,
        match threshold {
            Some(v) => Some(switcher_threshold_style(v)),
            None => None,
        },
    );
    assert(texts(rules@) =~= seq![SWITCHER_STYLE@]
        + maybe_with(opt_str(threshold), |v: Seq<char>| switcher_threshold_text(v)));
    push_maybe(
        &mut rules,
        match limit {
            Some(v) => Some(switcher_limit_style(v)),
            None => None,
        },
    );
    assert(texts(rules@) =~= seq![SWITCHER_STYLE@]
        + maybe_with(opt_str(threshold), |v: Seq<char>| switcher_threshold_text(v))
        + maybe_with(opt_str(limit), |v: Seq<char>| switcher_limit_text(v)));
    push_when(&mut rules, reverse, SWITCHER_REVERSE_STYLE);
    assert(texts(rules@) =~= seq![SWITCHER_STYLE@]
        + maybe_with(opt_str(threshold), |v: Seq<char>| switcher_threshold_text(v))
        + maybe_with(opt_str(limit), |v: Seq<char>| switcher_limit_text(v))
        + rule_if(reverse, SWITCHER_REVERSE_STYLE@));
    push_maybe(
        &mut rules,
        match gap {
            Some((v, s)) => Some(switcher_gap_style(v, s)),
            None => None,
        },
    );
    assert(texts(rules@) =~= seq![SWITCHER_STYLE@]
        + maybe_with(opt_str(threshold), |v: Seq<char>| switcher_threshold_text(v))
        + maybe_with(opt_str(limit), |v: Seq<char>| switcher_limit_text(v))
        + rule_if(reverse, SWITCHER_REVERSE_STYLE@)
        + maybe_scaled(scaled_view(gap), |v: Seq<char>, s: Seq<char>| switcher_gap_text(v, s)));
    push_maybe(
        &mut rules,
        match gap_x {
            Some((v, s)) => Some(switcher_gap_x_style(v, s)),
            None => None,
        },
    );
    assert(texts(rules@) =~= seq![SWITCHER_STYLE@]
        + maybe_with(opt_str(threshold), |v: Seq<char>| switcher_threshold_text(v))
        + maybe_with(opt_str(limit), |v: Seq<char>| switcher_limit_text(v))
        + rule_if(reverse, SWITCHER_REVERSE_STYLE@)
        + maybe_scaled(scaled_view(gap), |v: Seq<char>, s: Seq<char>| switcher_gap_text(v, s))
        + maybe_scaled(scaled_view(gap_x), |v: Seq<char>, s: Seq<char>| switcher_gap_x_text(v, s)));
    push_maybe(
        &mut rules,
        match gap_y {
            Some((v, s)) => Some(switcher_gap_y_style(v, s)),
            None => None,
        },
    );
    assert(texts(rules@) =~= switcher_rules(
        opt_str(threshold),
        opt_str(limit),
        reverse,
        scaled_view(gap),
        scaled_view(gap_x),
        scaled_view(gap_y),
    ));
    add_all(set, rules);
}

pub const STACK_STYLE: &'static str = "\n  stack-l{\n    display: block;\n  }\n\n  stack-l > *{\n    margin-block: 0;\n  }\n";

pub const ICON_STYLE: &'static str = "\nicon-l{\n    display: inline-block;\n    width: fit-content;\n    vertical-align: middle;\n}\n\nicon-l > :nth-child(1) {\n    height: 0.75em;\n    width: auto;\n}\n";

pub const SIDEBAR_STYLE: &'static str = "\n  sidebar-l{\n    display: flex;\n    flex-wrap: wrap;\n  }\n";

pub const SIDEBAR_REVERSE_STYLE: &'static str = "\n  sidebar-l[layout~=reverse]{\n    flex-wrap: wrap-reverse;\n  }\n";

/// The rules of a stack, in the order they are added: the spacing between
/// children needs a gap, and applies to all descendants where recursive.
pub open spec fn stack_rules(gap: Option<(Seq<char>, Seq<char>)>, recursive: bool) -> Seq<Seq<char>> {
    seq![STACK_STYLE@] + match gap {
        Some((v, s)) => seq![stack_gap_text(v, s)] + rule_if(recursive, stack_recursive_text(s)),
        None => Seq::empty(),
    }
}

/// Adds the rules of a stack.
pub fn stack_css(gap: Option<(&str, String)>, recursive: bool, set: &mut RuleSet)
    requires
        old(set).wf(),
    ensures
        final(set).wf(),
        final(set)@ == with_rules(old(set)@, stack_rules(scaled_view(gap), recursive)),
{
    let ghost g = scaled_view(gap);
    let mut rules: Vec<String> = Vec::new();
    rules.push(owned(STACK_STYLE));
    match gap {
        Some((v, s)) => {
            rules.push(stack_gap_style(v, s.clone()));
            if recursive {
                rules.push(stack_recursive_style(s));
            }
        },
        None => {},
    }
    assert(texts(rules@) =~= stack_rules(g, recursive));
    add_all(set, rules);
}

/// Whether the gap of an icon is on its end side.
pub open spec fn gap_at_end(gap_dir: Option<Seq<char>>) -> bool {
    gap_dir == Some("end"@)
}

/// The rule of the gap of an icon: on the end side where `gap-dir:end` is
/// given, else on the start side.
pub open spec fn icon_gap_text(value: Seq<char>, scaled: Seq<char>, gap_dir: Option<Seq<char>>) -> Seq<
    char,
> {
    if gap_at_end(gap_dir) {
        icon_group_text(value, "[layout*=\"gap-dir:end\"]"@, "end"@, "start"@, scaled)
    } else {
        icon_group_text(value, ""@, "start"@, "end"@, scaled)
    }
}

/// The rules of an icon, in the order they are added.
pub open spec fn icon_rules(
    scale: Option<(Seq<char>, Seq<char>)>,
    align: Option<Seq<char>>,
    gap_dir: Option<Seq<char>>,
    gap: Option<(Seq<char>, Seq<char>)>,
) -> Seq<Seq<char>> {
    seq![ICON_STYLE@]
        + maybe_scaled(scale, |v: Seq<char>, s: Seq<char>| icon_scale_text(v, s))
        + maybe_with(align, |v: Seq<char>| icon_align_text(v))
        + maybe_scaled(gap, |v: Seq<char>, s: Seq<char>| icon_gap_text(v, s, gap_dir))
}

/// Adds the rules of an icon: its base rule, its scale, its alignment and
/// the gap to its text.
pub fn icon_css(
    scale: Option<(&str, String)>,
    align: Option<&str>,
    gap_dir: Option<&str>,
    gap: Option<(&str, String)>,
    set: &mut RuleSet,
)
    requires
        old(set).wf(),
    ensures
        final(set).wf(),
        final(set)@ == with_rules(
            old(set)@,
            icon_rules(scaled_view(scale), opt_str(align), opt_str(gap_dir), scaled_view(gap)),
        ),
{
    let ghost sc = scaled_view(scale);
    let ghost g = scaled_view(gap);
    let mut rules: Vec<String> = Vec::new();
    rules.push(owned(ICON_STYLE));
    push_maybe(
        &mut rules,
        match scale {
            Some((v, s)) => Some(icon_scale_style(v, s)),
            None => None,
        },
    );
    assert(texts(rules@) =~= seq![ICON_STYLE@] + maybe_scaled(
        sc,
        |v: Seq<char>, s: Seq<char>| icon_scale_text(v, s),
    ));
    push_maybe(
        &mut rules,
        match align {
            Some(v) => Some(icon_align_style(v)),
            None => None,
        },
    );
    let at_end = match gap_dir {
        Some(d) => crate::text::str_eq(d, "end"),
        None => false,
    };
    proof {
        reveal_strlit("end");
    }
    assert(at_end == gap_at_end(opt_str(gap_dir)));
    push_maybe(
        &mut rules,
        match gap {
            Some((v, s)) => {
                if at_end {
                    Some(icon_group_style(v, "[layout*=\"gap-dir:end\"]", "end", "start", s))
                } else {
                    Some(icon_group_style(v, "", "start", "end", s))
                }
            },
            None => None,
        },
    );
    assert(texts(rules@) =~= icon_rules(sc, opt_str(align), opt_str(gap_dir), g));
    add_all(set, rules);
}

/// The rules of a sidebar, in the order they are added.
pub open spec fn sidebar_rules(
    reverse: bool,
    shrink: bool,
    side: Option<Seq<char>>,
    side_width: Option<Seq<char>>,
    content_min: Option<Seq<char>>,
    gap: Option<(Seq<char>, Seq<char>)>,
    gap_x: Option<(Seq<char>, Seq<char>)>,
    gap_y: Option<(Seq<char>, Seq<char>)>,
) -> Seq<Seq<char>> {
    seq![SIDEBAR_STYLE@]
        + rule_if(reverse, SIDEBAR_REVERSE_STYLE@)
        + rule_if(shrink, sidebar_shrink(reverse))
        + maybe_scaled(gap, |v: Seq<char>, s: Seq<char>| sidebar_gap_text(v, s))
        + maybe_scaled(gap_x, |v: Seq<char>, s: Seq<char>| sidebar_gap_x_text(v, s))
        + maybe_scaled(gap_y, |v: Seq<char>, s: Seq<char>| sidebar_gap_y_text(v, s))
        + match sidebar_group(side, side_width, content_min) {
        Some(r) => seq![r],
        None => Seq::empty(),
    }
}

/// Adds the rules of a sidebar: its base rule, those of its options and
/// gaps, and the rule that sizes its two children.
pub fn sidebar_css(
    reverse: bool,
    shrink: bool,
    side: Option<&str>,
    side_width: Option<&str>,
    content_min: Option<&str>,
    gap: Option<(&str, String)>,
    gap_x: Option<(&str, String)>,
    gap_y: Option<(&str, String)>,
    set: &mut RuleSet,
)
    requires
        old(set).wf(),
    ensures
        final(set).wf(),
        final(set)@ == with_rules(
            old(set)@,
            sidebar_rules(
                reverse,
                shrink,
                opt_str(side),
                opt_str(side_width),
                opt_str(content_min),
                scaled_view(gap),
                scaled_view(gap_x),
                scaled_view(gap_y),
            ),
        ),
{
    let ghost g = scaled_view(gap);
    let ghost gx = scaled_view(gap_x);
    let ghost gy = scaled_view(gap_y);
    let mut rules: Vec<String> = Vec::new();
    rules.push(owned(SIDEBAR_STYLE));
    push_when(&mut rules, reverse, SIDEBAR_REVERSE_STYLE);
    push_maybe(
        &mut rules,
        if shrink {
            Some(sidebar_shrink_rule(reverse))
        } else {
            None
        },
    );
    assert(texts(rules@) =~= seq![SIDEBAR_STYLE@] + rule_if(reverse, SIDEBAR_REVERSE_STYLE@)
        + rule_if(shrink, sidebar_shrink(reverse)));
    push_maybe(
        &mut rules,
        match gap {
            Some((v, s)) => Some(sidebar_gap_style(v, s)),
            None => None,
        },
    );
    push_maybe(
        &mut rules,
        match gap_x {
            Some((v, s)) => Some(sidebar_gap_x_style(v, s)),
            None => None,
        },
    );
    assert(texts(rules@) =~= seq![SIDEBAR_STYLE@] + rule_if(reverse, SIDEBAR_REVERSE_STYLE@)
        + rule_if(shrink, sidebar_shrink(reverse))
        + maybe_scaled(g, |v: Seq<char>, s: Seq<char>| sidebar_gap_text(v, s))
        + maybe_scaled(gx, |v: Seq<char>, s: Seq<char>| sidebar_gap_x_text(v, s)));
    push_maybe(
        &mut rules,
        match gap_y {
            Some((v, s)) => Some(sidebar_gap_y_style(v, s)),
            None => None,
        },
    );
    push_maybe(&mut rules, sidebar_group_rule(side, side_width, content_min));
    assert(texts(rules@) =~= sidebar_rules(
        reverse,
        shrink,
        opt_str(side),
        opt_str(side_width),
        opt_str(content_min),
        g,
        gx,
        gy,
    ));
    add_all(set, rules);
}

} // verus!
