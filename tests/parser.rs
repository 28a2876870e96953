use layout_css::builder::LayoutElements;
use layout_css::parser::{Parser, State};

// media query test
#[test]
fn media_query_update_biggest_breakpoint_value_of_parser_when_many_breakpoints() {
    let mut set = LayoutElements::new();
    let mut parser =
        Parser::new("<div  layout@600px=\"p:3\"  layout@900px=\"p:7\"  layout@700px=\"p:1\"");
    parser.parse(&mut set);
    assert_eq!(parser.biggest_breakpoint_value, Some("p:7"));
}

#[test]
fn media_query_update_biggest_breakpoint_value_of_parser() {
    let mut set = LayoutElements::new();
    let mut parser = Parser::new("<div  layout@600px=\"p:3\"");
    parser.parse(&mut set);
    assert_eq!(parser.biggest_breakpoint_value, Some("p:3"));
}

#[test]
fn media_query_update_biggest_breakpoint_of_parser() {
    let mut set = LayoutElements::new();
    let mut parser = Parser::new("<div  layout@600px=\"p:3\"");
    parser.parse(&mut set);
    println!("{:?}", set.elements());
    assert_eq!(parser.biggest_breakpoint, Some(600));
}

#[test]
fn media_query_only_become_layout_element() {
    let mut set = LayoutElements::new();
    let mut parser = Parser::new("<div  layout@600px=\"p:3\"");
    parser.parse(&mut set);
    println!("{:?}", set.elements());
}

#[test]
fn layout_bp_attribute_value_start_and_end_are_correct() {
    let mut set = LayoutElements::new();
    let mut parser = Parser::new("<ledge-l layout=\"gap:1\" layout@600px=\"gap:2 p:3\"");
    parser.parse(&mut set);
    assert_eq!(parser.attribute_name(), Some("layout@600px"));
    assert_eq!(parser.layout_breakpoint_attribute_value_start, Some(38));
    assert_eq!(parser.layout_breakpoint_attribute_value_end, Some(46));
}

#[test]
fn component_without_layout_attribute_generate_css() {
    let mut set = LayoutElements::new();
    let mut parser = Parser::new("<ledge-l>");
    parser.parse(&mut set);
    assert!(set.len() == 1);
}

#[test]
fn test_extract_breakpoint_attribute_is_added_to_breakpoints() {
    let mut set = LayoutElements::new();
    let mut parser = Parser::new("<ledge-l layout@600px=\"p:2\"");
    parser.parse(&mut set);
    assert_eq!(parser.layout_breakpoint_attribute_value_start, Some(23));
}

//parse tests

#[test]
fn when_state_change_for_resting_the_parser_indexes_have_to_be_reset() {
    let mut set = LayoutElements::new();
    let mut parser = Parser::new("<div layout=\"gap:2\" >");
    parser.parse(&mut set);
    assert_eq!(parser.tag_name_start, None);
    assert_eq!(parser.tag_name_end, None);
    assert_eq!(parser.attribute_name_start, None);
    assert_eq!(parser.attribute_name_end, None);
    assert_eq!(parser.layout_attribute_value_start, None);
    assert_eq!(parser.layout_attribute_value_end, None);
}

#[test]
fn other_attribute_name_than_layout_doesnt_set_attribute_value_start_and_attribute_value_end() {
    let mut set = LayoutElements::new();
    let mut parser = Parser::new("<div class=\"bonsoir\"");
    parser.parse(&mut set);
    assert_eq!(parser.layout_attribute_value_start, None);
    assert_eq!(parser.layout_attribute_value_end, None);
}

#[test]
fn state_changing_from_reading_attribute_value_to_after_tag_name_set_attribute_value_end() {
    let mut set = LayoutElements::new();
    let mut parser = Parser::new("<div layout=\"bonsoir\"");
    parser.parse(&mut set);
    assert_eq!(parser.layout_attribute_value_end, Some(19));
}

#[test]
fn check_attribute_value_start_and_end_when_empty_attribute_value() {
    let mut set = LayoutElements::new();
    let mut parser = Parser::new("<div layout=\"\" ");
    parser.parse(&mut set);
    assert_eq!(parser.layout_attribute_value(), None);
}

#[test]
fn state_changing_to_reading_attribute_value_set_attribute_value_start() {
    let mut set = LayoutElements::new();
    let mut parser = Parser::new("<div layout=\" ");
    parser.parse(&mut set);
    assert_eq!(parser.layout_attribute_value_start, Some(13));
}

#[test]
fn state_changing_from_reading_attribute_name_to_after_tag_name_or_waiting_attribute_value_set_attribute_name_end(
) {
    let mut set = LayoutElements::new();
    let mut parser = Parser::new("<div class ");
    parser.parse(&mut set);
    assert_eq!(parser.attribute_name_end, Some(9));
}

#[test]
fn state_to_reading_attribute_name_set_attribute_name_start() {
    let mut set = LayoutElements::new();
    let mut parser = Parser::new("<div c");
    parser.parse(&mut set);
    assert_eq!(parser.attribute_name_start, Some(5));
}

#[test]
fn state_changing_from_reading_tag_name_to_after_tag_name_set_tag_name_end() {
    let mut set = LayoutElements::new();
    let mut parser = Parser::new("<div ");
    parser.parse(&mut set);
    assert_eq!(parser.tag_name_end, Some(3));
}

#[test]
fn state_changing_to_reading_tag_name_set_tag_name_start() {
    let mut set = LayoutElements::new();
    let mut parser = Parser::new("<d");
    parser.parse(&mut set);
    assert_eq!(parser.tag_name_start, Some(1));
}
// transition tests

#[test]
fn reading_attribute_value_and_anything_except_double_quote_return_same_state() {
    let mut parser = Parser::new("");
    parser.state = State::ReadingAttributeValue;
    assert_eq!(parser.transition('i'), None);
}

#[test]
fn reading_tag_name_or_attribute_name_and_alphabetic_return_same_state() {
    let mut parser = Parser::new("");

    parser.state = State::ReadingTagName;
    assert_eq!(parser.transition('i'), None);

    parser.state = State::ReadingAttributeName;
    assert_eq!(parser.transition('i'), None);
}

#[test]
fn reading_attribute_value_and_double_quote_return_after_tag_name() {
    let mut parser = Parser::new("");
    parser.state = State::ReadingAttributeValue;
    assert_eq!(parser.transition('"'), Some(State::AfterTagName));
}

#[test]
fn waiting_attribute_value_and_double_quote_return_reading_attribute_value() {
    let mut parser = Parser::new("");
    parser.state = State::WaitingAttributeValue;
    assert_eq!(parser.transition('"'), Some(State::ReadingAttributeValue));
}

#[test]
fn reading_attribute_name_and_equal_return_waiting_attribute_value() {
    let mut parser = Parser::new("");
    parser.state = State::ReadingAttributeName;
    assert_eq!(parser.transition('='), Some(State::WaitingAttributeValue));
}

#[test]
fn reading_attribute_name_and_right_chevron_return_resting() {
    let mut parser = Parser::new("");
    parser.state = State::ReadingAttributeName;
    assert_eq!(parser.transition('>'), Some(State::Resting));
}

#[test]
fn reading_tag_name_and_right_chevron_return_resting() {
    let mut parser = Parser::new("");
    parser.state = State::ReadingTagName;
    assert_eq!(parser.transition('>'), Some(State::Resting));
}

#[test]
fn resting_and_left_chevron_return_inside_tag() {
    let parser = Parser::new("");
    assert_eq!(parser.transition('<'), Some(State::InsideTag));
}

#[test]
fn resting_and_a_return_resting() {
    let parser = Parser::new("");
    assert_eq!(parser.transition('a'), None);
}

#[test]
fn inside_tag_and_alpha_return_reading_tag_name() {
    let mut parser = Parser::new("");
    parser.state = State::InsideTag;
    assert_eq!(parser.transition('d'), Some(State::ReadingTagName));
}

#[test]
fn reading_tag_name_and_whitespace_return_after_tag_name() {
    let mut parser = Parser::new("");
    parser.state = State::ReadingTagName;
    assert_eq!(parser.transition(' '), Some(State::AfterTagName));

    let mut parser = Parser::new("");
    parser.state = State::ReadingTagName;
    assert_eq!(parser.transition('\n'), Some(State::AfterTagName));

    let mut parser = Parser::new("");
    parser.state = State::ReadingTagName;
    assert_eq!(parser.transition('\t'), Some(State::AfterTagName));
}

#[test]
fn after_tag_name_and_alphabetic_return_reading_attribute_name() {
    let mut parser = Parser::new("");
    parser.state = State::AfterTagName;
    assert_eq!(parser.transition('c'), Some(State::ReadingAttributeName));
}

#[test]
fn reading_attribute_name_and_whitespace_return_after_tag_name() {
    let mut parser = Parser::new("");
    parser.state = State::ReadingAttributeName;
    assert_eq!(parser.transition(' '), Some(State::AfterTagName));
}

#[test]
fn after_tag_name_and_right_chevron_return_resting() {
    let mut parser = Parser::new("");
    parser.state = State::AfterTagName;
    assert_eq!(parser.transition('>'), Some(State::Resting));
}

#[test]
fn non_ascii_letters_start_a_tag_name() {
    let mut parser = Parser::new("");
    parser.state = State::InsideTag;
    assert_eq!(parser.transition('é'), Some(State::ReadingTagName));
    assert_eq!(parser.transition('1'), None);
}

#[test]
fn unterminated_tag_gives_nothing() {
    let mut set = LayoutElements::new();
    let mut parser = Parser::new("<box-l layout=\"grow");
    parser.parse(&mut set);
    assert_eq!(set.len(), 0);
}

#[test]
fn update_biggest_breakpoint_keeps_the_largest() {
    let mut parser = Parser::new("");
    assert!(parser.update_biggest_breakpoint(600));
    assert!(!parser.update_biggest_breakpoint(500));
    assert!(!parser.update_biggest_breakpoint(600));
    assert!(parser.update_biggest_breakpoint(900));
    assert_eq!(parser.biggest_breakpoint, Some(900));
    parser.reset_indexes();
    assert_eq!(parser.biggest_breakpoint, None);
}

#[test]
fn positions_are_byte_offsets() {
    let mut set = LayoutElements::new();
    let mut parser = Parser::new("<é layout=\"ab\" x");
    parser.parse(&mut set);
    assert_eq!(parser.tag_name_start, Some(1));
    assert_eq!(parser.tag_name_end, Some(2));
    assert_eq!(parser.tag_name(), Some("é"));
    assert_eq!(parser.layout_attribute_value_start, Some(12));
    assert_eq!(parser.layout_attribute_value_end, Some(13));
    assert_eq!(parser.layout_attribute_value(), Some("ab"));
    assert_eq!(parser.attribute_name_start, Some(16));
}
