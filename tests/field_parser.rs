use arrayvec::ArrayString;
use kdl_config::{
    finalize_array_string, get_single_argument_value, parse_array_string, parse_bounded_string,
    Node, ParseDiagnostic, Severity, Source, Span, Value,
};

fn source() -> Source {
    Source::new("config.kdl".to_string(), "name \"hello\"".to_string())
}

fn node_with(args: Vec<Value>) -> Node {
    Node {
        name: "name".to_string(),
        args,
        children: Vec::new(),
        span: Span { offset: 3, len: 12 },
    }
}

fn string_node(s: &str) -> Node {
    node_with(vec![Value::String(s.to_string())])
}

fn messages(ds: &[ParseDiagnostic]) -> Vec<String> {
    ds.iter().map(|d| d.message.clone().unwrap_or_default()).collect()
}

#[test]
fn bounded_string_within_capacity_is_valid() {
    let mut diags = Vec::new();
    let r = parse_bounded_string(8, &source(), &string_node("hello"), &mut diags);
    assert!(r.valid);
    assert_eq!(r.value, "hello");
    assert_eq!(r.full_span, Span { offset: 3, len: 12 });
    assert_eq!(r.name_span, Span { offset: 3, len: 12 });
    assert!(diags.is_empty());
}

#[test]
fn bounded_string_at_exact_capacity_is_valid() {
    let mut diags = Vec::new();
    let r = parse_bounded_string(5, &source(), &string_node("hello"), &mut diags);
    assert!(r.valid);
    assert_eq!(r.value, "hello");
    assert!(diags.is_empty());
}

#[test]
fn empty_string_is_valid_at_zero_capacity() {
    let mut diags = Vec::new();
    let r = parse_bounded_string(0, &source(), &string_node(""), &mut diags);
    assert!(r.valid);
    assert_eq!(r.value, "");
    assert!(diags.is_empty());
}

#[test]
fn bounded_string_too_long_reports_capacity_and_length() {
    let mut diags = Vec::new();
    let r = parse_bounded_string(4, &source(), &string_node("hello"), &mut diags);
    assert!(!r.valid);
    assert_eq!(r.value, "");
    assert_eq!(diags.len(), 1);
    assert_eq!(
        messages(&diags),
        vec!["Expected string with less than or equal to 4 characters but contained 5 characters. Try reducing the number of characters."]
    );
    assert_eq!(diags[0].span, Span { offset: 3, len: 12 });
    assert_eq!(diags[0].severity, Severity::Error);
    assert_eq!(diags[0].input.name, "config.kdl");
    assert!(diags[0].help.is_none());
    assert!(diags[0].label.is_none());
}

#[test]
fn bounded_string_length_counts_bytes() {
    let mut diags = Vec::new();
    let r = parse_bounded_string(3, &source(), &string_node("héé"), &mut diags);
    assert!(!r.valid);
    assert_eq!(
        messages(&diags),
        vec!["Expected string with less than or equal to 3 characters but contained 5 characters. Try reducing the number of characters."]
    );
}

#[test]
fn bounded_string_large_numbers_in_message() {
    let mut diags = Vec::new();
    let long = "x".repeat(1234);
    let r = parse_bounded_string(100, &source(), &string_node(&long), &mut diags);
    assert!(!r.valid);
    assert_eq!(
        messages(&diags),
        vec!["Expected string with less than or equal to 100 characters but contained 1234 characters. Try reducing the number of characters."]
    );
}

#[test]
fn bounded_string_rejects_integer() {
    let mut diags = Vec::new();
    let r = parse_bounded_string(8, &source(), &node_with(vec![Value::Integer(42)]), &mut diags);
    assert!(!r.valid);
    assert_eq!(r.value, "");
    assert_eq!(messages(&diags), vec!["Expected type String but was Integer"]);
}

#[test]
fn bounded_string_rejects_other_kinds() {
    let cases = vec![
        (Value::Bool(true), "Expected type String but was Bool"),
        (Value::Null, "Expected type String but was Null"),
        (Value::Float("1.5".to_string()), "Expected type String but was Float"),
    ];
    for (v, msg) in cases {
        let mut diags = Vec::new();
        let r = parse_bounded_string(8, &source(), &node_with(vec![v]), &mut diags);
        assert!(!r.valid);
        assert_eq!(messages(&diags), vec![msg]);
    }
}

#[test]
fn bounded_string_without_argument_reports_arity_once() {
    let mut diags = Vec::new();
    let r = parse_bounded_string(8, &source(), &node_with(Vec::new()), &mut diags);
    assert!(!r.valid);
    assert_eq!(r.value, "");
    assert_eq!(messages(&diags), vec!["Expected exactly one argument but found 0"]);
}

#[test]
fn bounded_string_with_two_arguments_reports_arity_once() {
    let mut diags = Vec::new();
    let args = vec![Value::String("a".to_string()), Value::String("b".to_string())];
    let r = parse_bounded_string(8, &source(), &node_with(args), &mut diags);
    assert!(!r.valid);
    assert_eq!(messages(&diags), vec!["Expected exactly one argument but found 2"]);
}

#[test]
fn diagnostics_are_appended_not_replaced() {
    let mut diags = Vec::new();
    parse_bounded_string(1, &source(), &string_node("abc"), &mut diags);
    parse_bounded_string(8, &source(), &node_with(vec![Value::Null]), &mut diags);
    assert_eq!(diags.len(), 2);
    assert_eq!(messages(&diags)[1], "Expected type String but was Null");
}

#[test]
fn parsing_twice_gives_same_result() {
    let n = string_node("hello world");
    for cap in [4usize, 11, 20] {
        let mut d1 = Vec::new();
        let mut d2 = Vec::new();
        let r1 = parse_bounded_string(cap, &source(), &n, &mut d1);
        let r2 = parse_bounded_string(cap, &source(), &n, &mut d2);
        assert_eq!(r1.valid, r2.valid);
        assert_eq!(r1.value, r2.value);
        assert_eq!(r1.full_span, r2.full_span);
        assert_eq!(messages(&d1), messages(&d2));
    }
}

#[test]
fn single_argument_is_returned() {
    let mut diags = Vec::new();
    let n = node_with(vec![Value::Integer(7)]);
    let v = get_single_argument_value(&source(), &n, &mut diags);
    assert!(matches!(v, Some(Value::Integer(7))));
    assert!(diags.is_empty());
}

#[test]
fn array_string_within_capacity() {
    let mut diags = Vec::new();
    let r = parse_array_string::<8>(&source(), &string_node("hello"), &mut diags);
    assert!(r.valid);
    assert_eq!(r.value.as_str(), "hello");
    assert!(diags.is_empty());
}

#[test]
fn array_string_too_long_is_empty() {
    let mut diags = Vec::new();
    let r = parse_array_string::<3>(&source(), &string_node("hello"), &mut diags);
    assert!(!r.valid);
    assert_eq!(r.value.as_str(), "");
    assert_eq!(
        messages(&diags),
        vec!["Expected string with less than or equal to 3 characters but contained 5 characters. Try reducing the number of characters."]
    );
}

#[test]
fn array_string_wrong_kind() {
    let mut diags = Vec::new();
    let r = parse_array_string::<3>(&source(), &node_with(vec![Value::Bool(false)]), &mut diags);
    assert!(!r.valid);
    assert_eq!(messages(&diags), vec!["Expected type String but was Bool"]);
}

#[test]
fn array_string_finalizes_to_itself() {
    let s = ArrayString::<6>::from("abc").unwrap();
    let f = finalize_array_string(&s);
    assert_eq!(f, s);
    assert_eq!(f.as_str(), "abc");
}
