use layout_css::builder::{LayoutElement, LayoutElements};
use layout_css::classes::LayoutClass;
use layout_css::components::Component;
use layout_css::media_query::MediaQuery;
use layout_css::parser::Parser;
use layout_css::render::{box_css, center_css, extender_css, relative_css, BOX_GROW_STYLE, BOX_STYLE};
use layout_css::rules::{generate_final_css, MediaQueryRules, RuleSet};
use layout_css::scaled::{p_css, pt_child_css};
use layout_css::utilities::{hide_over_css, ratio_css, z_index_css, RATIO_STYLE};

fn parse(text: &str) -> (Vec<LayoutElement<'_>>, Parser<'_>) {
    let mut set = LayoutElements::new();
    let mut parser = Parser::new(text);
    parser.parse(&mut set);
    (set.elements().clone(), parser)
}

#[test]
fn breakpoint_order_does_not_change_largest() {
    let (_, a) = parse("<div layout@900px=\"p:7\" layout@600px=\"p:3\"");
    let (_, b) = parse("<div layout@600px=\"p:3\" layout@900px=\"p:7\"");
    assert_eq!(a.biggest_breakpoint, Some(900));
    assert_eq!(a.biggest_breakpoint, b.biggest_breakpoint);
    assert_eq!(a.biggest_breakpoint_value, Some("p:7"));
    assert_eq!(a.biggest_breakpoint_value, b.biggest_breakpoint_value);
}

#[test]
fn utility_scope_follows_attribute() {
    let (elements, _) = parse("<box-l layout=\"p:2\" layout@600px=\"p:3\">");
    assert!(elements.contains(&LayoutElement::LayoutUtility(
        LayoutClass::P("3"),
        Some(MediaQuery::InferiorOrEqualTo(600))
    )));
    assert!(elements.contains(&LayoutElement::LayoutUtility(LayoutClass::P("2"), None)));
    assert!(elements.contains(&LayoutElement::LayoutComponent(
        Component::Box { max_width: None, grow: false },
        Some(MediaQuery::SuperiorTo(600, "p:3".to_string()))
    )));
    assert!(elements.contains(&LayoutElement::LayoutComponent(
        Component::Box { max_width: None, grow: false },
        Some(MediaQuery::InferiorOrEqualTo(600))
    )));
    assert_eq!(elements.len(), 4);
}

#[test]
fn routing_is_by_kind() {
    let (elements, _) = parse("<center-l layout=\"max-width:30ch grow\">");
    assert!(elements.contains(&LayoutElement::LayoutUtility(LayoutClass::Grow, None)));
    assert!(elements.contains(&LayoutElement::LayoutComponent(
        Component::Center { max_width: Some("30ch"), and_text: false, recursive: false },
        None
    )));
    assert_eq!(elements.len(), 2);
}

#[test]
fn box_end_to_end() {
    let (elements, _) = parse("<box-l layout=\"max-width:440px grow\">");
    assert_eq!(elements.len(), 1);
    let mut rules = RuleSet::new();
    for e in elements.iter() {
        match e {
            LayoutElement::LayoutComponent(Component::Box { max_width, grow }, None) => {
                box_css(*max_width, *grow, &mut rules)
            }
            _ => panic!("unexpected element {:?}", e),
        }
    }
    let css = generate_final_css(&rules, &MediaQueryRules::new());
    assert!(css.contains(BOX_STYLE));
    assert!(css.contains("box-l[layout~=\"max-width:440px\"]{\n    max-inline-size:440px;\n}\n"));
    assert!(css.contains(BOX_GROW_STYLE));
    assert!(css.contains("width: 100%;"));
    assert!(!css.contains("[layout~=\"p:"));
    assert_eq!(rules.len(), 3);
}

#[test]
fn breakpoints_give_separate_scopes_and_snapshot() {
    let (elements, parser) = parse("<div layout@600px=\"p:3\" layout@900px=\"p:7\"");
    assert_eq!(parser.biggest_breakpoint_value, Some("p:7"));
    assert!(elements.contains(&LayoutElement::LayoutUtility(
        LayoutClass::P("3"),
        Some(MediaQuery::InferiorOrEqualTo(600))
    )));
    assert!(elements.contains(&LayoutElement::LayoutUtility(
        LayoutClass::P("7"),
        Some(MediaQuery::InferiorOrEqualTo(900))
    )));
    let (closed, _) = parse("<div layout@600px=\"p:3\" layout@900px=\"p:7\">");
    assert_eq!(closed.len(), 2);
}

#[test]
fn media_blocks_in_emission_order() {
    let mut mq = MediaQueryRules::new();
    mq.insert(MediaQuery::SuperiorTo(900, "p:7".to_string()), "box-l[layout]{a}".to_string());
    mq.insert(MediaQuery::InferiorOrEqualTo(600), "[layout~=\"p:3\"]{b}".to_string());
    mq.insert(MediaQuery::InferiorOrEqualTo(900), "[layout~=\"p:7\"]{c}".to_string());
    mq.insert(MediaQuery::InferiorOrEqualTo(600), "[layout~=\"p:3\"]{b}".to_string());
    assert_eq!(mq.len(), 3);
    let css = generate_final_css(&RuleSet::new(), &mq);
    let at900 = css.find("@media (width <= 900px)").unwrap();
    let at600 = css.find("@media (width <= 600px)").unwrap();
    let above = css.find("@media (width > 900px)").unwrap();
    assert!(at900 < at600 && at600 < above);
    assert_eq!(
        css,
        "@media (width <= 900px) {\n    [layout\\@900px~=\"p:7\"]{c}\n}\
         @media (width <= 600px) {\n    [layout\\@600px~=\"p:3\"]{b}\n}\
         @media (width > 900px) {\n    box-l[layout\\@900px=\"p:7\"][layout]{a}\n}\n"
    );
}

#[test]
fn global_rules_first_each_once() {
    let mut rules = RuleSet::new();
    assert!(rules.insert("a{}".to_string()));
    assert!(!rules.insert("a{}".to_string()));
    assert!(rules.insert("b{}".to_string()));
    let mut mq = MediaQueryRules::new();
    mq.insert(MediaQuery::InferiorOrEqualTo(10), "x[layout]{}".to_string());
    let css = generate_final_css(&rules, &mq);
    assert_eq!(css, "a{}b{}@media (width <= 10px) {\n    x[layout\\@10px]{}\n}");
}

#[test]
fn fixed_renderers_add_their_rules() {
    let mut rules = RuleSet::new();
    center_css(Some("40ch"), true, false, &mut rules);
    assert_eq!(rules.len(), 3);
    assert!(rules.contains(
        "center-l[layout~=\"max-width:40ch\"]{\n    max-inline-size: 40ch;\n    --center-max-width: 40ch;\n}\n"
    ));
    extender_css(true, false, false, true, false, &mut rules);
    assert_eq!(rules.len(), 6);
    relative_css(&mut rules);
    relative_css(&mut rules);
    assert_eq!(rules.len(), 7);
}

#[test]
fn value_utilities_render_their_value() {
    let mut rules = RuleSet::new();
    z_index_css("3", &mut rules);
    assert!(rules.contains("[layout~=\"z-index:3\"]{\n    z-index: 3;\n}\n"));
    hide_over_css("40rem", &mut rules);
    assert!(rules.contains(
        "@media screen and (min-width: 40rem) {\n    [layout~=\"hide-over:40rem\"]{\n        display:none;\n    }\n}\n"
    ));
    ratio_css("16/9", &mut rules);
    ratio_css("4/3", &mut rules);
    assert!(rules.contains(RATIO_STYLE));
    assert!(rules.contains("[layout~=\"ratio:4/3\"]{\n    aspect-ratio: 4/3;\n}\n"));
    assert_eq!(rules.len(), 5);
}

#[test]
fn scaled_utilities_use_the_scaled_value() {
    let mut rules = RuleSet::new();
    p_css("2", "2.61800rem", &mut rules);
    assert!(rules.contains(
        "[layout~=\"p:2\"]{\n    padding: 2.61800rem;\n    --pl: 2.61800rem;\n    --pr: 2.61800rem;\n}\n"
    ));
    pt_child_css("1", "1rem", &mut rules);
    assert!(rules.contains("[layout~=\"pt-child:1\"]> *{\n    padding-top: 1rem;\n}\n"));
    assert_eq!(rules.len(), 2);
}
