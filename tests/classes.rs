use layout_css::classes::LayoutClass;

#[test]
fn create_layout_class_for_rows_area() {
    let layout_class = "cols-3:440px";
    let cols_variant = LayoutClass::try_from(layout_class);
    assert_eq!(cols_variant, Ok(LayoutClass::Cols("cols-3:440px")));
}

#[test]
fn create_layout_class_when_value_expected_but_no_set_with_colon() {
    let layout_class = "max-width:";
    let max_width_variant = LayoutClass::try_from(layout_class);
    assert_eq!(max_width_variant, Err(()));
}

#[test]
fn create_layout_class_when_value_expected_but_no_set_without_colon() {
    let layout_class = "max-width";
    let max_width_variant = LayoutClass::try_from(layout_class);
    assert_eq!(max_width_variant, Err(()));
}

#[test]
fn create_layout_class_from_text() {
    let layout_class = "max-width:440px";
    let max_width_variant = LayoutClass::try_from(layout_class);
    assert_eq!(max_width_variant, Ok(LayoutClass::MaxWidth("440px")));
}

#[test]
fn classify_splits_at_first_colon_only() {
    assert_eq!(LayoutClass::classify("bg-img:a:b"), Some(LayoutClass::BgImg("a:b")));
    assert_eq!(LayoutClass::classify("p:2"), Some(LayoutClass::P("2")));
}

#[test]
fn classify_flags_and_unknown_names() {
    assert_eq!(LayoutClass::classify("grow"), Some(LayoutClass::Grow));
    assert_eq!(LayoutClass::classify("reverse"), Some(LayoutClass::Reverse));
    assert_eq!(LayoutClass::classify("relative"), Some(LayoutClass::Relative));
    assert_eq!(LayoutClass::classify("grow:1"), None);
    assert_eq!(LayoutClass::classify("unknown:1"), None);
    assert_eq!(LayoutClass::classify("unknown"), None);
    assert_eq!(LayoutClass::classify(""), None);
    assert_eq!(LayoutClass::classify("rows-2"), None);
}

#[test]
fn classify_positional_keeps_whole_token() {
    assert_eq!(LayoutClass::classify("rows-1:800px"), Some(LayoutClass::Rows("rows-1:800px")));
    assert_eq!(LayoutClass::classify("rows-1:"), None);
}

#[test]
fn classify_round_trip_on_values() {
    let c = LayoutClass::classify("gap-x:2").unwrap();
    assert_eq!(c.value(), Some("2"));
    assert_eq!(c, LayoutClass::GapX("2"));
}
