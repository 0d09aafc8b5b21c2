use codle::lang::generate_scaffold;
use codle::models::challenge::{Challenge, TestCase};
use codle::models::language::Language;
use codle::models::signature::parse_signature;
use codle::models::value::{Number, Value};

fn count(n: i64) -> Value {
    Value::Number(Number::new(Some(n), n < 0, &n.unsigned_abs().to_string(), "").unwrap())
}

fn fraction(whole: &str, fraction: &str) -> Value {
    Value::Number(Number::new(None, false, whole, fraction).unwrap())
}

fn entries(all: Vec<(&str, Value)>) -> Value {
    Value::Object(all.into_iter().map(|(k, v)| (k.to_string(), v)).collect())
}

fn one_test(notation: &str, input: Value, expected: Value) -> Challenge {
    Challenge {
        name: "Example".to_string(),
        difficulty: 1,
        short_description: String::new(),
        description: String::new(),
        function_signature: notation.to_string(),
        tests: vec![TestCase { input, expected }],
    }
}

fn written(c: &Challenge, lang: Language) -> String {
    let sig = parse_signature(&c.function_signature).unwrap();
    generate_scaffold(c, &sig, lang, "{}")
}

fn stub(notation: &str, lang: Language) -> String {
    written(&one_test(notation, Value::Null, Value::Null), lang)
}

#[test]
fn c_with_a_reference_to_a_single_value() {
    let c = one_test("fn bump(x: &mut i32)", entries(vec![("x", count(1))]), count(2));
    let got = written(&c, Language::C);
    assert!(got.contains(
        "cat > solution.c << 'SOLUTION'\n#include <stdio.h>\n#include <stdbool.h>\n#include <stdlib.h>\n\nvoid bump(int x) {\n}\n\nint main() {\n    int x = 1;\n    bump(x);\n    return 0;\n}\nSOLUTION\n"
    ));
    assert!(got.contains(
        "// Forward declaration - implemented in solution.c\nvoid bump(int x);\n\nint main() {\n    int passed = 0, failed = 0;\n\n    // Test 1\n    {\n        int x = 1;\n        bump(x);\n        if (x == 2) { printf(\"Test 1: PASS\\n\"); passed++; }\n        else { printf(\"Test 1: FAIL\\n\"); failed++; }\n    }\n\n    printf("
    ));
}

#[test]
fn cpp_with_a_reference_to_a_single_value() {
    let c = one_test("fn bump(x: &mut i32)", entries(vec![("x", count(1))]), count(2));
    let got = written(&c, Language::Cpp);
    assert!(got.contains(
        "cat > solution.cpp << 'SOLUTION'\n#include <iostream>\n\nvoid bump(int& x) {\n}\n\nint main() {\n    int x = 1;\n    bump(x);\n    std::cout << x << std::endl;\n    return 0;\n}\nSOLUTION\n"
    ));
    assert!(got.contains("cat > solution.hpp << 'HEADER'\n#pragma once\n\n\n\nvoid bump(int& x);\nHEADER\n"));
    assert!(got.contains(
        "    // Test 1\n    {\n        int x = 1;\n        bump(x);\n        if (x == 2) { std::cout << \"Test 1: PASS\" << std::endl; passed++; }\n        else { std::cout << \"Test 1: FAIL\" << std::endl; failed++; }\n    }\n\n"
    ));
}

#[test]
fn a_function_that_returns_and_takes_a_reference_is_tested_on_what_it_returns() {
    let c = one_test(
        "fn drain(a: &mut Vec<i32>) -> usize",
        entries(vec![("a", Value::Array(vec![count(1)]))]),
        count(1),
    );
    let got = written(&c, Language::Rs);
    assert!(got.contains("fn drain(a: &mut Vec<i32>) -> usize {\n    todo!()\n}\n"));
    assert!(got.contains(
        "    fn test_1() {\n        let a = vec![1];\n        let result = drain(a);\n        assert_eq!(result, 1);\n    }\n"
    ));
    let got = written(&c, Language::Py);
    assert!(got.contains("def drain(a: list[int]) -> int:\n"));
    assert!(got.contains(
        "def test_1():\n    a = [1]\n    result = drain(a)\n    assert result == 1\n"
    ));
    let got = written(&c, Language::Java);
    assert!(got.contains(
        "    void test1() {\n        int[] a = new int[] {1};\n        int result = App.drain(a);\n        assertEquals(1, result);\n    }\n"
    ));
    let got = written(&c, Language::C);
    assert!(got.contains(
        "        int a_arr[] = {1};\n        int a_len = 1;\n        size_t result = drain(a_arr, a_len);\n        if (result == 1) { printf(\"Test 1: PASS\\n\"); passed++; }\n        else { printf(\"Test 1: FAIL (expected 1, got %d)\\n\", result); failed++; }\n"
    ));
}

#[test]
fn the_first_of_two_references_is_the_one_that_is_checked() {
    let c = one_test(
        "fn swap(a: &mut Vec<i32>, b: &mut Vec<i32>)",
        entries(vec![("a", Value::Array(vec![count(1)])), ("b", Value::Array(vec![count(2)]))]),
        Value::Array(vec![count(2)]),
    );
    let got = written(&c, Language::Rs);
    assert!(got.contains(
        "        let mut a = vec![1];\n        let mut b = vec![2];\n        swap(&mut a, &mut b);\n        assert_eq!(a, vec![2]);\n"
    ));
    let got = written(&c, Language::Kt);
    assert!(got.contains(
        "        val a = mutableListOf(1)\n        val b = mutableListOf(2)\n        swap(a, b)\n        assertEquals(mutableListOf(2), a)\n"
    ));
    let got = written(&c, Language::Java);
    assert!(got.contains(
        "        int[] a = new int[] {1};\n        int[] b = new int[] {2};\n        App.swap(a, b);\n        assertArrayEquals(new int[] {2}, a);\n"
    ));
    let got = written(&c, Language::Py);
    assert!(got.contains("    a = [1]\n    b = [2]\n    swap(a, b)\n    assert a == [2]\n"));
}

#[test]
fn stubs_return_a_value_that_stands_for_nothing() {
    let cases = [
        ("fn f()", "", "", ""),
        ("fn f() -> bool", "    return false;\n", "        return false;\n", "    return false;\n"),
        ("fn f() -> i32", "    return 0;\n", "        return 0;\n", "    return 0;\n"),
        ("fn f() -> usize", "    return 0;\n", "        return 0;\n", "    return 0;\n"),
        ("fn f() -> f64", "    return 0.0;\n", "        return 0.0;\n", "    return 0.0;\n"),
        ("fn f() -> String", "    return \"\";\n", "        return \"\";\n", "    return \"\";\n"),
        ("fn f() -> char", "    return 0;\n", "        return null;\n", "    return {};\n"),
        (
            "fn f() -> Vec<f64>",
            "    return NULL;\n",
            "        return new double[] {};\n",
            "    return {};\n",
        ),
    ];
    let types = [
        ("void", "void", "void"),
        ("bool", "boolean", "bool"),
        ("int", "int", "int"),
        ("size_t", "int", "size_t"),
        ("double", "double", "double"),
        ("char*", "String", "std::string"),
        ("char", "char", "char"),
        ("double*", "double[]", "std::vector<double>"),
    ];
    for (i, (notation, c, java, cpp)) in cases.iter().enumerate() {
        let got = stub(notation, Language::C);
        assert!(got.contains(&format!("\n{} f() {{\n{}}}\nSOLUTION_LIB\n", types[i].0, c)), "{}", notation);
        let got = stub(notation, Language::Java);
        assert!(
            got.contains(&format!("    public static {} f() {{\n{}    }}\n", types[i].1, java)),
            "{}",
            notation
        );
        let got = stub(notation, Language::Cpp);
        assert!(got.contains(&format!("\n{} f() {{\n{}}}\nSOLUTION_LIB\n", types[i].2, cpp)), "{}", notation);
    }
}

#[test]
fn stub_headers_in_rust_python_and_kotlin() {
    let notation = "fn f(a: &mut Vec<String>, b: f64) -> char";
    assert!(stub(notation, Language::Rs)
        .contains("fn f(a: &mut Vec<String>, b: f64) -> char {\n    todo!()\n}\n"));
    assert!(stub(notation, Language::Py).contains("def f(a: list[str], b: float) -> str:\n    pass\n"));
    assert!(stub(notation, Language::Kt)
        .contains("fun f(a: MutableList<String>, b: Double): Char {\n    TODO()\n}\n"));
    assert!(stub("fn g()", Language::Rs).contains("fn g() {\n    todo!()\n}\n"));
    assert!(stub("fn g()", Language::Py).contains("def g() -> None:\n    pass\n"));
    assert!(stub("fn g()", Language::Kt).contains("fun g() {\n    TODO()\n}\n"));
}

#[test]
fn reals_and_texts_in_generated_tests() {
    let c = one_test(
        "fn scale(x: f64, unit: String) -> f64",
        entries(vec![("x", count(5)), ("unit", Value::String("m".to_string()))]),
        fraction("2", "5"),
    );
    let got = written(&c, Language::Rs);
    assert!(got.contains(
        "        let x = 5.0;\n        let unit = \"m\".to_string();\n        let result = scale(x, unit);\n        assert_eq!(result, 2.5);\n"
    ));
    let got = written(&c, Language::Cpp);
    assert!(got.contains(
        "        double x = 5.0;\n        std::string unit = \"m\";\n        auto result = scale(x, unit);\n        if (result == 2.5) {"
    ));
    assert!(got.contains("#include <iostream>\n#include <string>\n\ndouble scale(double x, std::string unit) {\n    return 0.0;\n}\n"));
}

#[test]
fn tests_are_numbered_from_one() {
    let mut c = one_test("fn f(a: i32) -> i32", entries(vec![("a", count(1))]), count(1));
    for n in 2..=12 {
        c.tests.push(TestCase { input: entries(vec![("a", count(n))]), expected: count(n) });
    }
    let got = written(&c, Language::Rs);
    for n in 1..=12 {
        assert!(got.contains(&format!("    fn test_{}() {{\n        let a = {};\n", n, n)));
    }
    assert!(!got.contains("fn test_0()"));
    assert!(!got.contains("fn test_13()"));
    let got = written(&c, Language::C);
    assert!(got.contains("    // Test 12\n    {\n        int a = 12;\n        int result = f(a);\n        if (result == 12) { printf(\"Test 12: PASS\\n\"); passed++; }\n"));
}

#[test]
fn c_holds_a_returned_list_against_a_literal() {
    let c = one_test(
        "fn names(n: usize) -> Vec<char>",
        entries(vec![("n", count(2))]),
        Value::Array(vec![Value::String("x".to_string()), Value::String("yz".to_string())]),
    );
    let got = written(&c, Language::C);
    assert!(got.contains(
        "        size_t n = 2;\n        char* result = names(n);\n        char expected[] = {'x', 'y'};\n        int test_passed = 1;\n        for (int i = 0; i < 2; i++) if (result[i] != expected[i]) test_passed = 0;\n        if (test_passed) { printf(\"Test 1: PASS\\n\"); passed++; }\n        else { printf(\"Test 1: FAIL\\n\"); failed++; }\n"
    ));
    let c = one_test("fn none() -> Vec<i32>", entries(vec![]), Value::Array(vec![]));
    let got = written(&c, Language::C);
    assert!(got.contains(
        "        int* result = none();\n        int expected[] = {};\n        int test_passed = 1;\n        for (int i = 0; i < 0; i++) if (result[i] != expected[i]) test_passed = 0;\n"
    ));
    let c = one_test("fn none() -> Vec<i32>", entries(vec![]), Value::Null);
    let got = written(&c, Language::C);
    assert!(got.contains("    {\n        int* result = none();\n    }\n"));
}

#[test]
fn c_checks_a_written_list_at_the_type_of_its_items() {
    let c = one_test(
        "fn scale(v: &mut Vec<f64>, on: &mut Vec<bool>)",
        entries(vec![("v", Value::Array(vec![count(1)])), ("on", Value::Array(vec![]))]),
        Value::Array(vec![fraction("2", "5"), count(3)]),
    );
    let got = written(&c, Language::C);
    assert!(got.contains(
        "        scale(v_arr, v_len, on_arr, on_len);\n        int test_passed = 1;\n        if (v_arr[0] != 2.5) test_passed = 0;\n        if (v_arr[1] != 3.0) test_passed = 0;\n        if (test_passed) {"
    ));
}

#[test]
fn java_with_a_reference_to_a_single_value() {
    let c = one_test("fn bump(x: &mut i32)", entries(vec![("x", count(1))]), count(2));
    let got = written(&c, Language::Java);
    assert!(got.contains(
        "    public static void bump(int x) {\n    }\n\n    public static void main(String[] args) {\n        int x = 1;\n        bump(x);\n        System.out.println(x);\n    }\n"
    ));
    assert!(got.contains(
        "    void test1() {\n        int x = 1;\n        App.bump(x);\n        assertEquals(2, x);\n    }\n"
    ));
}

#[test]
fn cpp_gives_a_list_in_a_comparison_its_type() {
    let c = one_test(
        "fn grid(n: usize) -> Vec<Vec<String>>",
        entries(vec![("n", count(1))]),
        Value::Array(vec![Value::Array(vec![Value::String("a".to_string())]), Value::Array(vec![])]),
    );
    let got = written(&c, Language::Cpp);
    assert!(got.contains(
        "        auto result = grid(n);\n        if (result == std::vector<std::vector<std::string>>{{\"a\"}, {}}) { std::cout << \"Test 1: PASS\""
    ));
    let c = one_test("fn none() -> Vec<i32>", entries(vec![]), Value::Null);
    let got = written(&c, Language::Cpp);
    assert!(got.contains("        if (result == std::vector<int>{}) {"));
}
