use layout_css::area::{
    count_rows_and_cols, grid_template_areas_value, grid_template_rows_or_cols_rule,
    grid_template_rows_or_cols_selector, unique_letters,
};
use layout_css::classes::LayoutClass;
use layout_css::component_css::{
    icon_css, ledge_css, stack_css, switcher_css, LEDGE_NO_WRAP_STYLE, LEDGE_STYLE,
};
use layout_css::components::{Component, ComponentKind};
use layout_css::rules::RuleSet;
use layout_css::render::{sidebar_group_rule, sidebar_shrink_rule};
use layout_css::styles::{grid_group_empty, icon_group_style, ledge_gap_style};
use std::str::FromStr;

#[test]
fn test_create_box() {
    let box_component = Component::from_str("box-l");

    assert_eq!(
        box_component,
        Ok(Component::Box {
            max_width: None,
            grow: false
        })
    );
}

#[test]
fn tag_aliases_denote_the_same_kind() {
    let a = Component::from_tag("ledge-l").unwrap();
    let b = Component::from_tag("row-l").unwrap();
    assert_eq!(a, b);
    assert_eq!(a.kind(), ComponentKind::Ledge);
    assert!(Component::from_tag("div").is_none());
    assert!(Component::from_str("box").is_err());
}

#[test]
fn apply_routes_by_kind() {
    let mut grid = Component::from_tag("grid-l").unwrap();
    assert!(grid.apply(&LayoutClass::Gap("2")));
    assert!(!grid.apply(&LayoutClass::MaxWidth("10px")));
    let mut stack = Component::from_tag("stack-l").unwrap();
    assert!(stack.apply(&LayoutClass::Gap("3")));
    assert_eq!(stack, Component::Stack { gap: Some("3"), recursive: false });
    assert!(!stack.apply(&LayoutClass::P("3")));
    assert_eq!(stack, Component::Stack { gap: Some("3"), recursive: false });
}

#[test]
fn list_fields_append_and_scalars_overwrite() {
    let mut area = Component::from_tag("area-l").unwrap();
    assert!(area.apply(&LayoutClass::Rows("rows-1:10px")));
    assert!(area.apply(&LayoutClass::Rows("rows-2:20px")));
    assert!(area.apply(&LayoutClass::Gap("1")));
    assert!(area.apply(&LayoutClass::Gap("2")));
    assert_eq!(
        area,
        Component::Area {
            template: None,
            rows: vec!["rows-1:10px", "rows-2:20px"],
            cols: vec![],
            gap: Some("2"),
            gap_x: None,
            gap_y: None,
        }
    );
}

#[test]
fn template_counts_and_letters() {
    assert_eq!(count_rows_and_cols("(a-a-b|a-a-b)"), (2, 3));
    assert_eq!(count_rows_and_cols("(a-b-c-d|e|f)"), (3, 4));
    assert_eq!(count_rows_and_cols(""), (1, 1));
    assert_eq!(unique_letters("(c-a-b|a-.-b)"), vec!['a', 'b', 'c']);
    assert_eq!(unique_letters("(-|-)"), Vec::<char>::new());
}

#[test]
fn template_areas_and_tracks() {
    assert_eq!(grid_template_areas_value("(a-a-b|a-a-b)"), "\"a a b\" \"a a b\"");
    assert_eq!(grid_template_areas_value("(a-bb|c)"), "\"a b b\" \"c\"");
    assert_eq!(grid_template_areas_value(""), "\"\"");
    let items = vec!["cols-2:300px", "cols-4:80px"];
    assert_eq!(grid_template_rows_or_cols_rule(&items, "cols-", 5), "1fr 300px 1fr 80px 1fr");
    assert_eq!(grid_template_rows_or_cols_rule(&vec!["rows-1:2fr:x"], "rows-", 2), "2fr 1fr");
    assert_eq!(grid_template_rows_or_cols_rule(&vec!["rows-1"], "rows-", 2), "1fr");
    assert_eq!(
        grid_template_rows_or_cols_selector(&items),
        "[layout~=\"cols-2:300px\"][layout~=\"cols-4:80px\"]"
    );
}

#[test]
fn sidebar_rules() {
    assert_eq!(sidebar_group_rule(None, None, None), None);
    let r = sidebar_group_rule(Some("right"), None, Some("60%")).unwrap();
    assert!(r.starts_with(
        "sidebar-l[layout*=\"side:right\"][layout*=\"content-min:60%\"] > :last-child:not(outsider-l) {\n      flex-basis: auto;"
    ));
    assert!(r.contains("> :first-child:not(outsider-l) {\n        flex-basis: 0;\n        flex-grow: 999;\n        min-inline-size: 60%;\n}\n"));
    let l = sidebar_group_rule(Some("left"), Some("20rem"), None).unwrap();
    assert!(l.contains("> :first-child:not(outsider-l) {\n      flex-basis: 20rem;"));
    assert!(l.contains("min-inline-size: 50%;"));
    assert_eq!(sidebar_shrink_rule(true), "sidebar-l[layout~=shrink]{\n    align-items: flex-end;\n}\n");
}

#[test]
fn component_rule_texts() {
    assert_eq!(
        ledge_gap_style("2", "2.61800rem".to_string()),
        "ledge-l[layout~=\"gap:2\"]{\n    gap: 2.61800rem;\n}\n"
    );
    assert_eq!(
        icon_group_style("1", "[layout*=\"gap-dir:end\"]", "end", "start", "1rem".to_string()),
        "icon-l[layout*=\"gap-dir:end\"][layout*=\"gap:1\"] >:nth-child(1){\n    margin-inline-end: 1rem;\n    margin-inline-start: initial;\n}\n"
    );
    assert!(grid_group_empty("10rem").contains("minmax(min(10rem, 100%),1fr)"));
}

#[test]
fn scaled_component_rules() {
    let mut rules = RuleSet::new();
    ledge_css(true, false, None, Some("center"), None, Some(("2", "2.61800rem".to_string())), None, None, &mut rules);
    assert_eq!(rules.len(), 4);
    assert!(rules.contains(LEDGE_STYLE));
    assert!(rules.contains(LEDGE_NO_WRAP_STYLE));
    assert!(rules.contains("ledge-l[layout~=\"gap:2\"]{\n    gap: 2.61800rem;\n}\n"));
    switcher_css(None, Some("3"), false, None, None, None, &mut rules);
    assert_eq!(rules.len(), 6);
    assert!(rules.get(5).contains(":nth-last-child(n+3)"));
}

#[test]
fn icon_gap_side_and_stack_recursion() {
    let mut rules = RuleSet::new();
    icon_css(None, None, Some("end"), Some(("1", "1rem".to_string())), &mut rules);
    assert!(rules.contains(
        "icon-l[layout*=\"gap-dir:end\"][layout*=\"gap:1\"] >:nth-child(1){\n    margin-inline-end: 1rem;\n    margin-inline-start: initial;\n}\n"
    ));
    assert_eq!(rules.len(), 2);
    let mut stack = RuleSet::new();
    stack_css(None, true, &mut stack);
    assert_eq!(stack.len(), 1);
    stack_css(Some(("2", "3rem".to_string())), true, &mut stack);
    assert_eq!(stack.len(), 3);
}
