use layout_css::builder::{generate, LayoutElement, LayoutElements};
use layout_css::classes::LayoutClass;
use layout_css::components::Component;
use layout_css::media_query::MediaQuery;

#[test]
fn attribute_layout_with_component_and_utilities_append_hashset_correctly() {
    let mut set = LayoutElements::new();
    generate(
        "box-l",
        Some("max-width:440px max-width:440px grow p:2 p:4 p:2"),
        None,
        &mut set,
    );
    println!("{:?}oooooooooooo", set.elements());
    assert_eq!(4, 4);
    assert_eq!(set.len(), 3);
}

#[test]
fn same_element_added_twice_is_held_once() {
    let mut set = LayoutElements::new();
    let e = LayoutElement::LayoutUtility(LayoutClass::P("2"), None);
    assert!(set.insert(e.clone()));
    assert!(!set.insert(e.clone()));
    assert_eq!(set.len(), 1);
    assert!(set.contains(&e));
    let scoped = LayoutElement::LayoutUtility(
        LayoutClass::P("2"),
        Some(MediaQuery::InferiorOrEqualTo(600)),
    );
    assert!(!set.contains(&scoped));
    assert!(set.insert(scoped));
    assert_eq!(set.len(), 2);
}

#[test]
fn component_modifier_of_another_kind_becomes_a_utility() {
    let mut set = LayoutElements::new();
    generate("box-l", Some("min-cols:3"), None, &mut set);
    assert_eq!(set.len(), 2);
    assert!(set.elements().contains(&LayoutElement::LayoutUtility(LayoutClass::MinCols("3"), None)));
    assert!(set.elements().contains(&LayoutElement::LayoutComponent(
        Component::Box { max_width: None, grow: false },
        None
    )));
}

#[test]
fn without_component_every_token_is_a_utility() {
    let mut set = LayoutElements::new();
    generate("div", Some("  max-width:10px\tbogus p:1  "), None, &mut set);
    assert_eq!(set.len(), 2);
    assert!(set.elements().contains(&LayoutElement::LayoutUtility(LayoutClass::MaxWidth("10px"), None)));
    assert!(set.elements().contains(&LayoutElement::LayoutUtility(LayoutClass::P("1"), None)));
}

#[test]
fn utilities_under_above_query_are_global_and_component_keeps_it() {
    let mut set = LayoutElements::new();
    let above = MediaQuery::SuperiorTo(600, "p:3".to_string());
    generate("stack-l", Some("gap:2 p:2"), Some(above.clone()), &mut set);
    assert!(set.elements().contains(&LayoutElement::LayoutUtility(LayoutClass::P("2"), None)));
    assert!(set.elements().contains(&LayoutElement::LayoutComponent(
        Component::Stack { gap: Some("2"), recursive: false },
        Some(above)
    )));
}
