use codle::lang::{generate_scaffold, render_value, translate_type};
use codle::models::challenge::{Challenge, TestCase};
use codle::models::language::Language;
use codle::models::signature::{parse_signature, RustType};
use codle::models::value::{Number, Value};

fn whole(n: i64) -> Value {
    let negative = n < 0;
    let digits = n.unsigned_abs().to_string();
    Value::Number(Number { integer: Some(n), negative, whole: digits, fraction: String::new() })
}

fn wholes(items: &[i64]) -> Value {
    Value::Array(items.iter().map(|n| whole(*n)).collect())
}

fn record(entries: Vec<(&str, Value)>) -> Value {
    Value::Object(entries.into_iter().map(|(k, v)| (k.to_string(), v)).collect())
}

fn two_sum() -> Challenge {
    Challenge {
        name: "Two Sum".to_string(),
        difficulty: 2,
        short_description: "Find two numbers".to_string(),
        description: "Find the two numbers that add up to the target.".to_string(),
        function_signature: "fn solve(nums: Vec<i32>, target: i32) -> Vec<usize>".to_string(),
        tests: vec![TestCase {
            input: record(vec![("nums", wholes(&[2, 7, 11, 15])), ("target", whole(9))]),
            expected: wholes(&[0, 1]),
        }],
    }
}

#[test]
fn rust_scaffold_for_two_sum() {
    let challenge = two_sum();
    let sig = parse_signature(&challenge.function_signature).unwrap();
    let script = generate_scaffold(&challenge, &sig, Language::Rs, "{}");
    println!("{}", script);
    let expected = r#"#!/bin/bash
set -e

if ! command -v cargo &> /dev/null; then
    echo "Error: 'cargo' is not installed. Please install it and try again."
    exit 1
fi

cargo init --name "solve"

cat > src/main.rs << 'SOLUTION'
fn solve(nums: Vec<i32>, target: i32) -> Vec<usize> {
    todo!()
}

fn main() {
    let nums = vec![2, 7, 11, 15];
    let target = 9;
    let result = solve(nums, target);
    println!("{:?}", result);
}

#[cfg(test)]
mod tests {
    use super::*;

    #[test]
    fn test_1() {
        let nums = vec![2, 7, 11, 15];
        let target = 9;
        let result = solve(nums, target);
        assert_eq!(result, vec![0, 1]);
    }
}
SOLUTION

cat > .codle.json << 'METADATA'
{}
METADATA

echo "Run: cargo run"
echo "Test: cargo test"
"#;
    assert_eq!(script, expected);
}

#[test]
fn translate_nested_list() {
    let ty = RustType::Vec(Box::new(RustType::Vec(Box::new(RustType::I32))));
    assert_eq!(translate_type(&ty, Language::Rs), "Vec<Vec<i32>>");
    assert_eq!(translate_type(&ty, Language::Cpp), "std::vector<std::vector<int>>");
    assert_eq!(translate_type(&ty, Language::Java), "int[][]");
    assert_eq!(render_value(&wholes(&[1, -2]), &RustType::Vec(Box::new(RustType::I32)), Language::Kt), "mutableListOf(1, -2)");
}

fn texts(items: &[&str]) -> Value {
    Value::Array(items.iter().map(|s| Value::String(s.to_string())).collect())
}

fn fill() -> Challenge {
    Challenge {
        name: "Fill".to_string(),
        difficulty: 1,
        short_description: "Reverse in place".to_string(),
        description: "Reverse the buffer in place.".to_string(),
        function_signature: "fn fill(buf: &mut Vec<char>)".to_string(),
        tests: vec![
            TestCase {
                input: record(vec![("buf", texts(&["a", "b", "c"]))]),
                expected: texts(&["c", "b", "a"]),
            },
            TestCase { input: Value::Null, expected: Value::Null },
        ],
    }
}

fn is_valid() -> Challenge {
    Challenge {
        name: "Valid".to_string(),
        difficulty: 1,
        short_description: String::new(),
        description: String::new(),
        function_signature: "fn is_valid(s: String) -> bool".to_string(),
        tests: vec![TestCase {
            input: record(vec![("s", Value::String("()".to_string()))]),
            expected: Value::Bool(true),
        }],
    }
}

#[test]
fn rust_tests_for_both_shapes() {
    let c = two_sum();
    let sig = parse_signature(&c.function_signature).unwrap();
    let got = codle::lang::rust::generate_rust_tests(&sig, &c.tests);
    assert_eq!(got, "\n#[cfg(test)]\nmod tests {\n    use super::*;\n\n    #[test]\n    fn test_1() {\n        let nums = vec![2, 7, 11, 15];\n        let target = 9;\n        let result = solve(nums, target);\n        assert_eq!(result, vec![0, 1]);\n    }\n}");
    let c = fill();
    let sig = parse_signature(&c.function_signature).unwrap();
    let got = codle::lang::rust::generate_rust_tests(&sig, &c.tests);
    assert_eq!(got, "\n#[cfg(test)]\nmod tests {\n    use super::*;\n\n    #[test]\n    fn test_1() {\n        let mut buf = vec!['a', 'b', 'c'];\n        fill(&mut buf);\n        assert_eq!(buf, vec!['c', 'b', 'a']);\n    }\n\n    #[test]\n    fn test_2() {\n    }\n}");
}

#[test]
fn python_tests_for_both_shapes() {
    let c = two_sum();
    let sig = parse_signature(&c.function_signature).unwrap();
    let got = codle::lang::python::generate_python_tests(&sig, &c.tests);
    assert_eq!(got, "from solution import solve\n\n\ndef test_1():\n    nums = [2, 7, 11, 15]\n    target = 9\n    result = solve(nums, target)\n    assert result == [0, 1]\n");
    let c = fill();
    let sig = parse_signature(&c.function_signature).unwrap();
    let got = codle::lang::python::generate_python_tests(&sig, &c.tests);
    assert_eq!(got, "from solution import fill\n\n\ndef test_1():\n    buf = [\"a\", \"b\", \"c\"]\n    fill(buf)\n    assert buf == [\"c\", \"b\", \"a\"]\n\n\ndef test_2():\n");
}

#[test]
fn kotlin_tests_for_both_shapes() {
    let c = two_sum();
    let sig = parse_signature(&c.function_signature).unwrap();
    let got = codle::lang::kotlin::generate_kotlin_tests(&sig, &c.tests);
    assert_eq!(got, "package codle\n\nimport kotlin.test.Test\nimport kotlin.test.assertEquals\n\nclass AppTest {\n    @Test\n    fun test1() {\n        val nums = mutableListOf(2, 7, 11, 15)\n        val target = 9\n        val result = solve(nums, target)\n        assertEquals(mutableListOf(0, 1), result)\n    }\n}");
    let c = fill();
    let sig = parse_signature(&c.function_signature).unwrap();
    let got = codle::lang::kotlin::generate_kotlin_tests(&sig, &c.tests);
    assert_eq!(got, "package codle\n\nimport kotlin.test.Test\nimport kotlin.test.assertEquals\n\nclass AppTest {\n    @Test\n    fun test1() {\n        val buf = mutableListOf('a', 'b', 'c')\n        fill(buf)\n        assertEquals(mutableListOf('c', 'b', 'a'), buf)\n    }\n\n    @Test\n    fun test2() {\n    }\n}");
}

#[test]
fn java_tests_for_both_shapes() {
    let c = two_sum();
    let sig = parse_signature(&c.function_signature).unwrap();
    let got = codle::lang::java::generate_java_tests(&sig, &c.tests);
    assert_eq!(got, "package codle;\n\nimport org.junit.jupiter.api.Test;\nimport static org.junit.jupiter.api.Assertions.*;\n\nclass AppTest {\n    @Test\n    void test1() {\n        int[] nums = new int[] {2, 7, 11, 15};\n        int target = 9;\n        int[] result = App.solve(nums, target);\n        assertArrayEquals(new int[] {0, 1}, result);\n    }\n}");
    let c = fill();
    let sig = parse_signature(&c.function_signature).unwrap();
    let got = codle::lang::java::generate_java_tests(&sig, &c.tests);
    assert_eq!(got, "package codle;\n\nimport org.junit.jupiter.api.Test;\nimport static org.junit.jupiter.api.Assertions.*;\n\nclass AppTest {\n    @Test\n    void test1() {\n        char[] buf = new char[] {'a', 'b', 'c'};\n        App.fill(buf);\n        assertArrayEquals(new char[] {'c', 'b', 'a'}, buf);\n    }\n\n    @Test\n    void test2() {\n    }\n}");
    let c = is_valid();
    let sig = parse_signature(&c.function_signature).unwrap();
    let got = codle::lang::java::generate_java_tests(&sig, &c.tests);
    assert!(got.contains("        String s = \"()\";\n        boolean result = App.is_valid(s);\n        assertEquals(true, result);\n"));
}

#[test]
fn cpp_tests_for_both_shapes() {
    let c = two_sum();
    let sig = parse_signature(&c.function_signature).unwrap();
    let got = codle::lang::cpp::generate_cpp_tests(&sig, &c.tests);
    assert_eq!(got, "#include <iostream>\n#include <vector>\n#include <string>\n\n// Forward declaration - implemented in solution.cpp\nstd::vector<size_t> solve(std::vector<int> nums, int target);\n\nint main() {\n    int passed = 0, failed = 0;\n\n    // Test 1\n    {\n        std::vector<int> nums = {2, 7, 11, 15};\n        int target = 9;\n        auto result = solve(nums, target);\n        if (result == std::vector<size_t>{0, 1}) { std::cout << \"Test 1: PASS\" << std::endl; passed++; }\n        else { std::cout << \"Test 1: FAIL\" << std::endl; failed++; }\n    }\n\n    std::cout << std::endl << passed << \"/\" << (passed + failed) << \" tests passed\" << std::endl;\n    return failed > 0 ? 1 : 0;\n}\n");
    let c = fill();
    let sig = parse_signature(&c.function_signature).unwrap();
    let got = codle::lang::cpp::generate_cpp_tests(&sig, &c.tests);
    assert_eq!(got, "#include <iostream>\n#include <vector>\n#include <string>\n\n// Forward declaration - implemented in solution.cpp\nvoid fill(std::vector<char>& buf);\n\nint main() {\n    int passed = 0, failed = 0;\n\n    // Test 1\n    {\n        std::vector<char> buf = {'a', 'b', 'c'};\n        fill(buf);\n        if (buf == std::vector<char>{'c', 'b', 'a'}) { std::cout << \"Test 1: PASS\" << std::endl; passed++; }\n        else { std::cout << \"Test 1: FAIL\" << std::endl; failed++; }\n    }\n\n    std::cout << std::endl << passed << \"/\" << (passed + failed) << \" tests passed\" << std::endl;\n    return failed > 0 ? 1 : 0;\n}\n");
}

#[test]
fn c_tests_for_both_shapes() {
    let c = two_sum();
    let sig = parse_signature(&c.function_signature).unwrap();
    let got = codle::lang::c::generate_c_tests(&sig, &c.tests);
    assert_eq!(got, "#include <stdio.h>\n#include <stdbool.h>\n#include <stdlib.h>\n#include <string.h>\n\n// Forward declaration - implemented in solution.c\nsize_t* solve(int nums[], int nums_len, int target);\n\nint main() {\n    int passed = 0, failed = 0;\n\n    // Test 1\n    {\n        int nums_arr[] = {2, 7, 11, 15};\n        int nums_len = 4;\n        int target = 9;\n        size_t* result = solve(nums_arr, nums_len, target);\n        size_t expected[] = {0, 1};\n        int test_passed = 1;\n        for (int i = 0; i < 2; i++) if (result[i] != expected[i]) test_passed = 0;\n        if (test_passed) { printf(\"Test 1: PASS\\n\"); passed++; }\n        else { printf(\"Test 1: FAIL\\n\"); failed++; }\n    }\n\n    printf(\"\\n%d/%d tests passed\\n\", passed, passed + failed);\n    return failed > 0 ? 1 : 0;\n}\n");
    let c = fill();
    let sig = parse_signature(&c.function_signature).unwrap();
    let got = codle::lang::c::generate_c_tests(&sig, &c.tests);
    assert_eq!(got, "#include <stdio.h>\n#include <stdbool.h>\n#include <stdlib.h>\n#include <string.h>\n\n// Forward declaration - implemented in solution.c\nvoid fill(char buf[], int buf_len);\n\nint main() {\n    int passed = 0, failed = 0;\n\n    // Test 1\n    {\n        char buf_arr[] = {'a', 'b', 'c'};\n        int buf_len = 3;\n        fill(buf_arr, buf_len);\n        int test_passed = 1;\n        if (buf_arr[0] != 'c') test_passed = 0;\n        if (buf_arr[1] != 'b') test_passed = 0;\n        if (buf_arr[2] != 'a') test_passed = 0;\n        if (test_passed) { printf(\"Test 1: PASS\\n\"); passed++; }\n        else { printf(\"Test 1: FAIL\\n\"); failed++; }\n    }\n\n    printf(\"\\n%d/%d tests passed\\n\", passed, passed + failed);\n    return failed > 0 ? 1 : 0;\n}\n");
    let c = is_valid();
    let sig = parse_signature(&c.function_signature).unwrap();
    let got = codle::lang::c::generate_c_tests(&sig, &c.tests);
    assert!(got.contains("    // Test 1\n    {\n        char* s = \"()\";\n        bool result = is_valid(s);\n        if (result == true) { printf(\"Test 1: PASS\\n\"); passed++; }\n        else { printf(\"Test 1: FAIL (expected true, got %d)\\n\", result); failed++; }\n    }\n\n"));
}

#[test]
fn every_language_compares_the_result_with_the_expected_list() {
    let c = two_sum();
    let sig = parse_signature(&c.function_signature).unwrap();
    let expected = [
        (Language::Rs, "assert_eq!(result, vec![0, 1]);"),
        (Language::Py, "assert result == [0, 1]"),
        (Language::Kt, "assertEquals(mutableListOf(0, 1), result)"),
        (Language::Java, "assertArrayEquals(new int[] {0, 1}, result);"),
        (Language::C, "size_t expected[] = {0, 1};\n        int test_passed = 1;\n        for (int i = 0; i < 2; i++) if (result[i] != expected[i]) test_passed = 0;"),
        (Language::Cpp, "if (result == std::vector<size_t>{0, 1}) {"),
    ];
    for (lang, line) in expected {
        let script = generate_scaffold(&c, &sig, lang, "{}");
        assert!(script.contains(line), "{:?}", lang);
    }
}

#[test]
fn every_language_checks_the_parameter_of_a_function_that_returns_nothing() {
    let c = fill();
    let sig = parse_signature(&c.function_signature).unwrap();
    let expected = [
        (Language::Rs, "assert_eq!(buf, vec!['c', 'b', 'a']);", "result"),
        (Language::Py, "assert buf == [\"c\", \"b\", \"a\"]", "result"),
        (Language::Kt, "assertEquals(mutableListOf('c', 'b', 'a'), buf)", "result"),
        (Language::Java, "assertArrayEquals(new char[] {'c', 'b', 'a'}, buf);", "result"),
        (Language::C, "if (buf_arr[0] != 'c') test_passed = 0;\n        if (buf_arr[1] != 'b') test_passed = 0;\n        if (buf_arr[2] != 'a') test_passed = 0;", "result"),
        (Language::Cpp, "if (buf == std::vector<char>{'c', 'b', 'a'}) {", "result"),
    ];
    for (lang, line, absent) in expected {
        let script = generate_scaffold(&c, &sig, lang, "{}");
        assert!(script.contains(line), "{:?}", lang);
        assert!(!script.contains(absent), "{:?}", lang);
    }
}
