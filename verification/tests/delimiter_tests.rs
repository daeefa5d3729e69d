use cargo_get::delimiter::resolve_delimiter;
use cargo_get::delimiter::Delimiter;
use cargo_get::text::join_strings;

#[test]
fn no_token_defaults_to_newline() {
    let d = resolve_delimiter(None);
    assert_eq!(d.value(), "\n");
}

#[test]
fn lf_token_is_a_single_newline() {
    let d = Delimiter::from_token("LF");
    assert_eq!(d.value(), "\n");
}

#[test]
fn symbolic_tokens_map_to_control_characters() {
    assert_eq!(Delimiter::from_token("Tab").value(), "\t");
    assert_eq!(Delimiter::from_token("CR").value(), "\r");
    assert_eq!(Delimiter::from_token("CRLF").value(), "\r\n");
}

#[test]
fn unrecognized_token_is_used_verbatim() {
    assert_eq!(Delimiter::from_token(",").value(), ",");
    assert_eq!(Delimiter::from_token(" - ").value(), " - ");
}

#[test]
fn symbolic_names_are_case_sensitive() {
    assert_eq!(Delimiter::from_token("lf").value(), "lf");
    assert_eq!(Delimiter::from_token("TAB").value(), "TAB");
}

#[test]
fn default_delimiter_is_newline() {
    let d: Delimiter = Default::default();
    assert_eq!(d.value(), "\n");
}

#[test]
fn joins_list_with_literal_comma() {
    let items = vec![String::from("A"), String::from("B")];
    let d = Delimiter::from_token(",");
    assert_eq!(join_strings(&items, &d.value()), "A,B");
}

#[test]
fn join_edge_cases() {
    let none: Vec<String> = vec![];
    assert_eq!(join_strings(&none, ","), "");
    let one = vec![String::from("solo")];
    assert_eq!(join_strings(&one, ","), "solo");
    let three = vec![String::from("a"), String::from("b"), String::from("c")];
    assert_eq!(join_strings(&three, "\n"), "a\nb\nc");
}
