use layout_css::media_query::{extract_breakpoint, push_decimal, MediaQuery};

#[test]
fn extract_breakpoint_with_nothing_after_at() {
    let bp = extract_breakpoint("layout@");
    assert_eq!(bp, None)
}

#[test]
fn test_extract_breakpoint_with_nothing_after_at() {
    let mq_attribute_value = "layout@";
    let result = extract_breakpoint(mq_attribute_value);

    assert_eq!(result, None);
}

#[test]
fn test_extract_breakpoint_without_at() {
    let mq_attribute_value = "layout600px";
    let result = extract_breakpoint(mq_attribute_value);
    assert_eq!(result, None);
}

#[test]
fn test_extract_breakpoint_with_correct_formating() {
    let mq_attribute_value = "layout@600px";
    let result = extract_breakpoint(mq_attribute_value);
    assert_eq!(result, Some(600));
}

#[test]
fn extract_breakpoint_rejects_malformed_names() {
    assert_eq!(extract_breakpoint("layout@px"), None);
    assert_eq!(extract_breakpoint("layout@60a0px"), None);
    assert_eq!(extract_breakpoint("layout@600pt"), None);
    assert_eq!(extract_breakpoint("layout@+600px"), None);
    assert_eq!(extract_breakpoint("layout@99999999999999999999999px"), None);
    assert_eq!(extract_breakpoint("layout@0px"), Some(0));
}

#[test]
fn media_query_order_and_breakpoint() {
    let a600 = MediaQuery::InferiorOrEqualTo(600);
    let a900 = MediaQuery::InferiorOrEqualTo(900);
    let above = MediaQuery::SuperiorTo(300, "p:1".to_string());
    assert!(a900.emitted_no_later_than(&a600));
    assert!(!a600.emitted_no_later_than(&a900));
    assert!(a600.emitted_no_later_than(&above));
    assert!(!above.emitted_no_later_than(&a900));
    assert_eq!(*above.get_breakpoint(), 300);
    assert!(above.same_as(&MediaQuery::SuperiorTo(300, "p:1".to_string())));
    assert!(!above.same_as(&MediaQuery::SuperiorTo(300, "p:2".to_string())));
}

#[test]
fn decimal_text() {
    let mut s = String::from("w");
    push_decimal(&mut s, 0);
    push_decimal(&mut s, 1207);
    assert_eq!(s, "w01207");
}
