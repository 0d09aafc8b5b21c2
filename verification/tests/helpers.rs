use codle::lang::c::{c_return_type, expand_c_params};
use codle::lang::{
    escape_for_heredoc, first_mut_ref, get_first_mut_ref_inner_type, get_first_test_inputs,
    has_mut_ref_params, is_void_with_mut_ref, require_commands, unwrap_mut_ref,
};
use codle::models::challenge::{Challenge, TestCase};
use codle::models::signature::{parse_signature, RustType};
use codle::models::value::{get, Number, Value};

fn shape(notation: &str) -> (bool, bool) {
    let sig = parse_signature(notation).unwrap();
    (has_mut_ref_params(&sig), is_void_with_mut_ref(&sig))
}

fn with_tests(tests: Vec<TestCase>) -> Challenge {
    Challenge {
        name: "Example".to_string(),
        difficulty: 1,
        short_description: String::new(),
        description: String::new(),
        function_signature: "fn f()".to_string(),
        tests,
    }
}

#[test]
fn the_two_shapes_of_a_signature() {
    assert_eq!(shape("fn f()"), (false, false));
    assert_eq!(shape("fn f(a: i32)"), (false, false));
    assert_eq!(shape("fn f(a: i32) -> i32"), (false, false));
    assert_eq!(shape("fn f(a: &mut Vec<i32>)"), (true, true));
    assert_eq!(shape("fn f(a: i32, b: &mut String, c: &mut bool)"), (true, true));
    assert_eq!(shape("fn f(a: &mut Vec<i32>) -> usize"), (true, false));
    assert_eq!(shape("fn f(a: Vec<i32>)"), (false, false));
}

#[test]
fn the_first_mutable_reference() {
    let sig = parse_signature("fn f(a: i32, b: &mut String, c: &mut bool)").unwrap();
    assert_eq!(first_mut_ref(&sig).unwrap().name, "b");
    assert_eq!(get_first_mut_ref_inner_type(&sig), Some(&RustType::String));
    let sig = parse_signature("fn f(a: i32) -> bool").unwrap();
    assert!(first_mut_ref(&sig).is_none());
    assert_eq!(get_first_mut_ref_inner_type(&sig), None);
}

#[test]
fn what_a_reference_refers_to() {
    let inner = RustType::Vec(Box::new(RustType::Char));
    let reference = RustType::MutRef(Box::new(inner.clone()));
    assert_eq!(unwrap_mut_ref(&reference), &inner);
    assert_eq!(unwrap_mut_ref(&inner), &inner);
    assert_eq!(unwrap_mut_ref(&RustType::Void), &RustType::Void);
    let twice = RustType::MutRef(Box::new(reference.clone()));
    assert_eq!(unwrap_mut_ref(&twice), &reference);
}

#[test]
fn the_arguments_of_the_first_example() {
    assert!(get_first_test_inputs(&with_tests(vec![])).is_none());
    let no_record = with_tests(vec![TestCase { input: Value::Bool(true), expected: Value::Null }]);
    assert!(get_first_test_inputs(&no_record).is_none());
    let two = with_tests(vec![
        TestCase {
            input: Value::Object(vec![("a".to_string(), Value::Bool(true))]),
            expected: Value::Null,
        },
        TestCase { input: Value::Object(vec![]), expected: Value::Null },
    ]);
    let inputs = get_first_test_inputs(&two).unwrap();
    assert_eq!(inputs.len(), 1);
    assert_eq!(inputs[0].0, "a");
}

#[test]
fn looking_up_an_entry() {
    let entries = vec![
        ("a".to_string(), Value::Bool(true)),
        ("b".to_string(), Value::Bool(false)),
        ("a".to_string(), Value::Null),
    ];
    assert_eq!(get(&entries, &"a".to_string()).unwrap().as_bool(), Some(true));
    assert_eq!(get(&entries, &"b".to_string()).unwrap().as_bool(), Some(false));
    assert!(get(&entries, &"c".to_string()).is_none());
    assert!(get(&entries, &"".to_string()).is_none());
}

#[test]
fn readings_of_a_value() {
    let n = Value::Number(Number::new(Some(-3), true, "3", "").unwrap());
    assert_eq!(n.as_i64(), Some(-3));
    assert_eq!(n.as_bool(), None);
    assert_eq!(n.as_str(), None);
    assert!(n.as_array().is_none());
    assert!(n.as_object().is_none());
    assert_eq!(n.item_count(), 0);
    let r = Value::Number(Number::new(None, false, "3", "5").unwrap());
    assert_eq!(r.as_i64(), None);
    let s = Value::String("hi".to_string());
    assert_eq!(s.as_str(), Some("hi"));
    assert_eq!(s.as_i64(), None);
    let list = Value::Array(vec![Value::Null, Value::Bool(true)]);
    assert_eq!(list.as_array().unwrap().len(), 2);
    assert_eq!(list.item_count(), 2);
    let record = Value::Object(vec![("k".to_string(), Value::Null)]);
    assert_eq!(record.as_object().unwrap().len(), 1);
    assert_eq!(record.item_count(), 0);
    assert_eq!(Value::Bool(true).as_bool(), Some(true));
    assert_eq!(Value::Null.as_bool(), None);
}

#[test]
fn checks_for_required_commands() {
    assert_eq!(require_commands(&[]), "");
    assert_eq!(
        require_commands(&["cargo"]),
        "if ! command -v cargo &> /dev/null; then\n    echo \"Error: 'cargo' is not installed. Please install it and try again.\"\n    exit 1\nfi"
    );
    assert_eq!(
        require_commands(&["gcc", "make"]),
        "if ! command -v gcc &> /dev/null; then\n    echo \"Error: 'gcc' is not installed. Please install it and try again.\"\n    exit 1\nfi\nif ! command -v make &> /dev/null; then\n    echo \"Error: 'make' is not installed. Please install it and try again.\"\n    exit 1\nfi"
    );
}

#[test]
fn a_here_document_takes_its_content_as_it_stands() {
    for content in ["", "plain", "$HOME `ls` \\ 'quoted' \"double\"\nEOF\n"] {
        assert_eq!(escape_for_heredoc(content), content);
    }
}

#[test]
fn c_parameters_hand_a_list_over_as_array_and_length() {
    let sig = parse_signature("fn f(a: Vec<i32>, n: usize, s: &mut Vec<String>, t: &mut f64)")
        .unwrap();
    assert_eq!(
        expand_c_params(&sig),
        vec!["int a[]", "int a_len", "size_t n", "char* s[]", "int s_len", "double t"]
    );
    let sig = parse_signature("fn f()").unwrap();
    assert!(expand_c_params(&sig).is_empty());
}

#[test]
fn c_returns_a_list_as_a_pointer() {
    let cases = [
        ("fn f() -> Vec<i32>", "int*"),
        ("fn f() -> Vec<Vec<bool>>", "bool**"),
        ("fn f() -> String", "char*"),
        ("fn f() -> f64", "double"),
        ("fn f()", "void"),
    ];
    for (notation, expected) in cases {
        let sig = parse_signature(notation).unwrap();
        assert_eq!(c_return_type(&sig), expected);
    }
}
