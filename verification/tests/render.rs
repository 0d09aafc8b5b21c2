use codle::lang::{render_value, translate_type};
use codle::models::language::Language;
use codle::models::signature::RustType;
use codle::models::value::{Number, Value};

const ALL: [Language; 6] =
    [Language::Rs, Language::Py, Language::Kt, Language::Java, Language::C, Language::Cpp];

fn list_of(item: RustType) -> RustType {
    RustType::Vec(Box::new(item))
}

fn reference(inner: RustType) -> RustType {
    RustType::MutRef(Box::new(inner))
}

fn integer(n: i64) -> Value {
    Value::Number(Number {
        integer: Some(n),
        negative: n < 0,
        whole: n.unsigned_abs().to_string(),
        fraction: String::new(),
    })
}

fn decimal(negative: bool, whole: &str, fraction: &str) -> Value {
    Value::Number(Number {
        integer: None,
        negative,
        whole: whole.to_string(),
        fraction: fraction.to_string(),
    })
}

fn text(s: &str) -> Value {
    Value::String(s.to_string())
}

fn in_all(value: &Value, ty: &RustType) -> Vec<String> {
    ALL.iter().map(|l| render_value(value, ty, *l)).collect()
}

#[test]
fn every_type_in_every_language() {
    let cases: Vec<(RustType, [&str; 6])> = vec![
        (RustType::I32, ["i32", "int", "Int", "int", "int", "int"]),
        (RustType::F64, ["f64", "float", "Double", "double", "double", "double"]),
        (RustType::Usize, ["usize", "int", "Int", "int", "size_t", "size_t"]),
        (RustType::Bool, ["bool", "bool", "Boolean", "boolean", "bool", "bool"]),
        (RustType::String, ["String", "str", "String", "String", "char*", "std::string"]),
        (RustType::Char, ["char", "str", "Char", "char", "char", "char"]),
        (RustType::Void, ["()", "None", "Unit", "void", "void", "void"]),
        (
            list_of(RustType::I32),
            ["Vec<i32>", "list[int]", "MutableList<Int>", "int[]", "int*", "std::vector<int>"],
        ),
        (
            reference(list_of(RustType::Char)),
            [
                "&mut Vec<char>",
                "list[str]",
                "MutableList<Char>",
                "char[]",
                "char*",
                "std::vector<char>&",
            ],
        ),
        (
            list_of(list_of(RustType::String)),
            [
                "Vec<Vec<String>>",
                "list[list[str]]",
                "MutableList<MutableList<String>>",
                "String[][]",
                "char***",
                "std::vector<std::vector<std::string>>",
            ],
        ),
    ];
    for (ty, expected) in cases {
        for (i, lang) in ALL.iter().enumerate() {
            let first = translate_type(&ty, *lang);
            assert_eq!(first, expected[i], "{:?} in {:?}", ty, lang);
            assert!(!first.is_empty());
            assert_eq!(translate_type(&ty, *lang), first);
        }
    }
}

#[test]
fn integers() {
    for ty in [RustType::I32, RustType::Usize] {
        assert_eq!(in_all(&integer(42), &ty), vec!["42"; 6]);
        assert_eq!(in_all(&integer(-7), &ty), vec!["-7"; 6]);
        assert_eq!(in_all(&integer(0), &ty), vec!["0"; 6]);
        assert_eq!(in_all(&integer(i64::MIN), &ty), vec!["-9223372036854775808"; 6]);
        assert_eq!(in_all(&decimal(false, "5", "5"), &ty), vec!["0"; 6]);
        assert_eq!(in_all(&decimal(false, "5", ""), &ty), vec!["0"; 6]);
        assert_eq!(in_all(&text("12"), &ty), vec!["0"; 6]);
        assert_eq!(in_all(&Value::Null, &ty), vec!["0"; 6]);
    }
}

#[test]
fn reals_always_have_a_point() {
    let ty = RustType::F64;
    assert_eq!(in_all(&decimal(false, "5", ""), &ty), vec!["5.0"; 6]);
    assert_eq!(in_all(&integer(5), &ty), vec!["5.0"; 6]);
    assert_eq!(in_all(&integer(5), &ty), in_all(&decimal(false, "5", ""), &ty));
    assert_eq!(in_all(&decimal(false, "5", "25"), &ty), vec!["5.25"; 6]);
    assert_eq!(in_all(&decimal(true, "0", "001"), &ty), vec!["-0.001"; 6]);
    assert_eq!(in_all(&decimal(true, "0", ""), &ty), vec!["-0.0"; 6]);
    assert_eq!(in_all(&integer(-12), &ty), vec!["-12.0"; 6]);
    assert_eq!(in_all(&Value::Bool(true), &ty), vec!["0.0"; 6]);
    assert_eq!(in_all(&Value::Null, &ty), vec!["0.0"; 6]);
    for value in [decimal(false, "5", ""), integer(5), decimal(false, "1", "5"), text("x"), Value::Null] {
        for text in in_all(&value, &ty) {
            assert!(text.contains('.'));
        }
    }
}

#[test]
fn truth_values() {
    let ty = RustType::Bool;
    assert_eq!(in_all(&Value::Bool(true), &ty), ["true", "True", "true", "true", "true", "true"]);
    assert_eq!(
        in_all(&Value::Bool(false), &ty),
        ["false", "False", "false", "false", "false", "false"]
    );
    assert_eq!(in_all(&integer(1), &ty), ["false", "False", "false", "false", "false", "false"]);
}

#[test]
fn texts() {
    let ty = RustType::String;
    assert_eq!(
        in_all(&text("hi there"), &ty),
        [
            "\"hi there\".to_string()",
            "\"hi there\"",
            "\"hi there\"",
            "\"hi there\"",
            "\"hi there\"",
            "\"hi there\""
        ]
    );
    assert_eq!(
        in_all(&integer(3), &ty),
        ["\"\".to_string()", "\"\"", "\"\"", "\"\"", "\"\"", "\"\""]
    );
    assert_eq!(render_value(&text("a\"b"), &ty, Language::Py), "\"a\"b\"");
}

#[test]
fn characters() {
    let ty = RustType::Char;
    assert_eq!(in_all(&text("abc"), &ty), ["'a'", "\"a\"", "'a'", "'a'", "'a'", "'a'"]);
    assert_eq!(in_all(&text("a"), &ty), ["'a'", "\"a\"", "'a'", "'a'", "'a'", "'a'"]);
    assert_eq!(in_all(&text(""), &ty), ["'?'", "\"?\"", "'?'", "'?'", "'?'", "'?'"]);
    assert_eq!(in_all(&Value::Null, &ty), ["'?'", "\"?\"", "'?'", "'?'", "'?'", "'?'"]);
    assert_eq!(in_all(&integer(1), &ty), ["'?'", "\"?\"", "'?'", "'?'", "'?'", "'?'"]);
    assert_eq!(in_all(&text("écu"), &ty), ["'é'", "\"é\"", "'é'", "'é'", "'é'", "'é'"]);
}

#[test]
fn lists() {
    let ty = list_of(RustType::I32);
    let value = Value::Array(vec![integer(0), integer(1)]);
    assert_eq!(
        in_all(&value, &ty),
        ["vec![0, 1]", "[0, 1]", "mutableListOf(0, 1)", "new int[] {0, 1}", "{0, 1}", "{0, 1}"]
    );
    let empty = Value::Array(vec![]);
    let canonical = ["vec![]", "[]", "mutableListOf()", "new int[] {}", "{}", "{}"];
    assert_eq!(in_all(&empty, &ty), canonical);
    assert_eq!(in_all(&Value::Null, &ty), canonical);
    assert_eq!(in_all(&integer(3), &ty), canonical);
    let one = Value::Array(vec![integer(9)]);
    assert_eq!(
        in_all(&one, &ty),
        ["vec![9]", "[9]", "mutableListOf(9)", "new int[] {9}", "{9}", "{9}"]
    );
}

#[test]
fn a_list_has_one_literal_for_each_item() {
    let ty = list_of(RustType::Usize);
    for n in 0..6usize {
        let value = Value::Array((0..n).map(|i| integer(i as i64 + 10)).collect());
        let text = render_value(&value, &ty, Language::Py);
        let inside = &text[1..text.len() - 1];
        let count = if inside.is_empty() { 0 } else { inside.split(", ").count() };
        assert_eq!(count, n);
    }
}

#[test]
fn nested_list_literals() {
    let ty = list_of(list_of(RustType::Bool));
    let value = Value::Array(vec![
        Value::Array(vec![Value::Bool(true), Value::Bool(false)]),
        Value::Array(vec![]),
    ]);
    assert_eq!(
        in_all(&value, &ty),
        [
            "vec![vec![true, false], vec![]]",
            "[[True, False], []]",
            "mutableListOf(mutableListOf(true, false), mutableListOf())",
            "new boolean[][] {new boolean[] {true, false}, new boolean[] {}}",
            "{{true, false}, {}}",
            "{{true, false}, {}}"
        ]
    );
}

#[test]
fn a_reference_is_written_as_what_it_refers_to() {
    let inner = list_of(RustType::Char);
    let value = Value::Array(vec![text("a"), text("b")]);
    assert_eq!(in_all(&value, &reference(inner.clone())), in_all(&value, &inner));
    assert_eq!(render_value(&integer(4), &reference(RustType::I32), Language::C), "4");
}

#[test]
fn nothing() {
    assert_eq!(in_all(&Value::Null, &RustType::Void), vec![""; 6]);
    assert_eq!(in_all(&integer(1), &RustType::Void), vec![""; 6]);
    assert_eq!(in_all(&text("x"), &RustType::Void), vec![""; 6]);
}
