//! Scaffolds in C++.
use vstd::prelude::*;
use vstd::string::*;
use crate::models::challenge::{Challenge, TestCase, TestCaseView};
use crate::models::language::Language;
use crate::models::signature::{FunctionSignature, Param, ParamView, RustType, SignatureView};
use crate::models::value::{Entries, entries_view, Value, ValueView};
use crate::text::{decimal, decimal_string, join, joined, views};
use super::{
    declarations, declarations_text, escape_for_heredoc, first_inputs, first_mut_ref,
    first_test_inputs, is_void_with_mut_ref, name_texts, names, present_name_texts, present_names,
    render, render_value, require_commands, required_commands_text, unwrap_mut_ref,
};

verus! {

/// How the type `ty` is written in C++.
pub open spec fn type_text(ty: RustType) -> Seq<char>
    decreases ty,
{
    match ty {
        RustType::I32 => "int"@,
        RustType::F64 => "double"@,
        RustType::Usize => "size_t"@,
        RustType::Bool => "bool"@,
        RustType::String => "std::string"@,
        RustType::Char => "char"@,
        RustType::Vec(inner) => "std::vector<"@ + type_text(*inner) + ">"@,
        RustType::MutRef(inner) => type_text(*inner) + "&"@,
        RustType::Void => "void"@,
    }
}

/// Writes the type `ty` in C++.
pub fn translate_type_cpp(ty: &RustType) -> (r: String)
    ensures
        r@ == type_text(*ty),
    decreases ty,
{
    match ty {
        RustType::I32 => String::from_str("int"),
        RustType::F64 => String::from_str("double"),
        RustType::Usize => String::from_str("size_t"),
        RustType::Bool => String::from_str("bool"),
        RustType::String => String::from_str("std::string"),
        RustType::Char => String::from_str("char"),
        RustType::Vec(inner) => {
                let mut out = String::from_str("std::vector<");
                out.append(translate_type_cpp(inner).as_str());
                out.append(">");
                out
            },
        RustType::MutRef(inner) => {
                let mut out = translate_type_cpp(inner);
                out.append("&");
                out
            },
        RustType::Void => String::from_str("void"),
    }
}

/// The parameter `p` as it is declared: its type and its name.
pub open spec fn parameter_text(p: ParamView) -> Seq<char> {
    type_text(p.ty) + " "@ + p.name
}

/// Writes the parameter `p` as it is declared: its type and its name.
fn parameter(p: &Param) -> (r: String)
    ensures
        r@ == parameter_text(p@),
{
    let mut out = translate_type_cpp(&p.ty);
    out.append(" ");
    out.append(p.name.as_str());
    out
}

/// The parameters as they are declared in the stub.
pub open spec fn parameter_texts(params: Seq<ParamView>) -> Seq<Seq<char>> {
    Seq::new(params.len(), |i: int| parameter_text(params[i]))
}

/// Writes the parameters as they are declared in the stub.
pub fn parameters(sig: &FunctionSignature) -> (r: Vec<String>)
    ensures
        views(r@) == parameter_texts(sig@.params),
{
    let mut out: Vec<String> = Vec::new();
    let mut i: usize = 0;
    while i < sig.params.len()
        invariant
            i <= sig.params@.len(),
            out@.len() == i,
            forall|k: int|
                0 <= k < i ==> (#[trigger] out@[k])@ == parameter_text(sig.params@[k]@),
        decreases sig.params@.len() - i,
    {
        out.push(parameter(&sig.params[i]));
        i += 1;
    }
    assert(views(out@) =~= parameter_texts(sig@.params));
    out
}

/// The function's header: the result type, the name and the parameters.
pub open spec fn prototype_text(sig: SignatureView) -> Seq<char> {
    type_text(sig.return_type)
        + " "@
        + sig.name
        + "("@
        + joined(parameter_texts(sig.params), ", "@)
        + ")"@
}

/// Writes the function's header: the result type, the name and the
/// parameters.
fn prototype(sig: &FunctionSignature) -> (r: String)
    ensures
        r@ == prototype_text(sig@),
{
    let mut out = translate_type_cpp(&sig.return_type);
    out.append(" ");
    out.append(sig.name.as_str());
    out.append("(");
    out.append(join(&parameters(sig), ", ").as_str());
    out.append(")");
    out
}

/// The statement that lets the stub compile before it is written: it returns
/// a value of the result type that stands for nothing.
pub open spec fn default_return_text(sig: SignatureView) -> Seq<char> {
    match sig.return_type {
        RustType::Void => Seq::empty(),
        RustType::Bool => "    return false;\n"@,
        RustType::I32 => "    return 0;\n"@,
        RustType::Usize => "    return 0;\n"@,
        RustType::F64 => "    return 0.0;\n"@,
        RustType::String => "    return \"\";\n"@,
        _ => "    return {};\n"@,
    }
}

/// Writes the statement that lets the stub compile before it is written: it
/// returns a value of the result type that stands for nothing.
fn default_return(sig: &FunctionSignature) -> (r: String)
    ensures
        r@ == default_return_text(sig@),
{
    match &sig.return_type {
        RustType::Void => String::new(),
        RustType::Bool => String::from_str("    return false;\n"),
        RustType::I32 => String::from_str("    return 0;\n"),
        RustType::Usize => String::from_str("    return 0;\n"),
        RustType::F64 => String::from_str("    return 0.0;\n"),
        RustType::String => String::from_str("    return \"\";\n"),
        _ => String::from_str("    return {};\n"),
    }
}

/// Whether one of the first `n` parameters holds a list.
pub open spec fn takes_list(params: Seq<ParamView>, n: int) -> bool
    decreases n,
{
    0 < n <= params.len() && (takes_list(params, n - 1) || params[n - 1].ty.referent() is Vec)
}

/// Whether one of the first `n` parameters holds a text.
pub open spec fn takes_string(params: Seq<ParamView>, n: int) -> bool
    decreases n,
{
    0 < n <= params.len() && (takes_string(params, n - 1) || params[n - 1].ty.referent() is String)
}

/// Whether the function takes or returns a list.
pub open spec fn needs_vector(sig: SignatureView) -> bool {
    takes_list(sig.params, sig.params.len() as int) || sig.return_type is Vec
}

/// Whether the function takes or returns a text.
pub open spec fn needs_string(sig: SignatureView) -> bool {
    takes_string(sig.params, sig.params.len() as int) || sig.return_type is String
}

/// Whether the function takes or returns a list.
fn uses_vector(sig: &FunctionSignature) -> (r: bool)
    ensures
        r == needs_vector(sig@),
{
    let mut found = false;
    let mut i: usize = 0;
    while i < sig.params.len()
        invariant
            i <= sig.params@.len(),
            found == takes_list(sig@.params, i as int),
        decreases sig.params@.len() - i,
    {
        if matches!(unwrap_mut_ref(&sig.params[i].ty), RustType::Vec(_)) {
            found = true;
        }
        i += 1;
    }
    found || matches!(sig.return_type, RustType::Vec(_))
}

/// Whether the function takes or returns a text.
fn uses_string(sig: &FunctionSignature) -> (r: bool)
    ensures
        r == needs_string(sig@),
{
    let mut found = false;
    let mut i: usize = 0;
    while i < sig.params.len()
        invariant
            i <= sig.params@.len(),
            found == takes_string(sig@.params, i as int),
        decreases sig.params@.len() - i,
    {
        if matches!(unwrap_mut_ref(&sig.params[i].ty), RustType::String) {
            found = true;
        }
        i += 1;
    }
    found || matches!(sig.return_type, RustType::String)
}

/// The headers that the source file includes: the one for printing, and those
/// for lists and texts where the function takes or returns one.
pub open spec fn includes_text(sig: SignatureView) -> Seq<char> {
    "#include <iostream>"@
        + (if needs_vector(sig) {
        "\n#include <vector>"@
    } else {
        Seq::empty()
    })
        + (if needs_string(sig) {
        "\n#include <string>"@
    } else {
        Seq::empty()
    })
}

/// Writes the headers that the source file includes: the one for printing,
/// and those for lists and texts where the function takes or returns one.
fn includes(sig: &FunctionSignature) -> (r: String)
    ensures
        r@ == includes_text(sig@),
{
    let mut out = String::from_str("#include <iostream>");
    let part = if uses_vector(sig) {
        String::from_str("\n#include <vector>")
    } else {
        String::new()
    };
    out.append(part.as_str());
    let part = if uses_string(sig) {
        String::from_str("\n#include <string>")
    } else {
        String::new()
    };
    out.append(part.as_str());
    out
}

/// The header file, which declares the function.
pub open spec fn header_text(sig: SignatureView) -> Seq<char> {
    "#pragma once\n"@
        + (if needs_vector(sig) {
        "#include <vector>"@
    } else {
        Seq::empty()
    })
        + "\n"@
        + (if needs_string(sig) {
        "#include <string>"@
    } else {
        Seq::empty()
    })
        + "\n\n"@
        + prototype_text(sig)
        + ";"@
}

/// Writes the header file, which declares the function.
fn header(sig: &FunctionSignature) -> (r: String)
    ensures
        r@ == header_text(sig@),
{
    let mut out = String::from_str("#pragma once\n");
    let part = if uses_vector(sig) {
        String::from_str("#include <vector>")
    } else {
        String::new()
    };
    out.append(part.as_str());
    out.append("\n");
    let part = if uses_string(sig) {
        String::from_str("#include <string>")
    } else {
        String::new()
    };
    out.append(part.as_str());
    out.append("\n\n");
    out.append(prototype(sig).as_str());
    out.append(";");
    out
}

/// The stub: the function with a body that returns at once.
pub open spec fn stub_text(sig: SignatureView) -> Seq<char> {
    prototype_text(sig) + " {\n"@ + default_return_text(sig) + "}"@
}

/// Writes the stub: the function with a body that returns at once.
fn stub(sig: &FunctionSignature) -> (r: String)
    ensures
        r@ == stub_text(sig@),
{
    let mut out = prototype(sig);
    out.append(" {\n");
    out.append(default_return(sig).as_str());
    out.append("}");
    out
}

/// The source file that the tests are linked with: the stub alone.
pub open spec fn library_text(sig: SignatureView) -> Seq<char> {
    includes_text(sig) + "\n#include \"solution.hpp\"\n\n"@ + stub_text(sig)
}

/// Writes the source file that the tests are linked with: the stub alone.
fn library(sig: &FunctionSignature) -> (r: String)
    ensures
        r@ == library_text(sig@),
{
    let mut out = includes(sig);
    out.append("\n#include \"solution.hpp\"\n\n");
    out.append(stub(sig).as_str());
    out
}

/// The statement that calls the function for what it writes to its
/// parameters.
pub open spec fn output_call_text(sig: SignatureView, indent: Seq<char>) -> Seq<char> {
    indent + sig.name + "("@ + joined(name_texts(sig.params), ", "@) + ");\n"@
}

/// Writes the statement that calls the function for what it writes to its
/// parameters.
fn output_call(sig: &FunctionSignature, indent: &str) -> (r: String)
    ensures
        r@ == output_call_text(sig@, indent@),
{
    let mut out = String::from_str(indent);
    out.append(sig.name.as_str());
    out.append("(");
    out.append(join(&names(sig), ", ").as_str());
    out.append(");\n");
    out
}

/// The statement that calls the function with the arguments that `inputs` has
/// and keeps what it returns.
pub open spec fn return_call_text(
    sig: SignatureView,
    inputs: Entries,
    indent: Seq<char>,
) -> Seq<char> {
    indent
        + "auto result = "@
        + sig.name
        + "("@
        + joined(present_name_texts(sig.params, inputs, sig.params.len() as int), ", "@)
        + ");\n"@
}

/// Writes the statement that calls the function with the arguments that
/// `inputs` has and keeps what it returns.
fn return_call(sig: &FunctionSignature, inputs: &Vec<(String, Value)>, indent: &str) -> (r: String)
    ensures
        r@ == return_call_text(sig@, entries_view(inputs@), indent@),
{
    let mut out = String::from_str(indent);
    out.append("auto result = ");
    out.append(sig.name.as_str());
    out.append("(");
    out.append(join(&present_names(sig, inputs), ", ").as_str());
    out.append(");\n");
    out
}

/// The statements that print the variable `subject`: item by item where it
/// holds a list.
pub open spec fn print_text(subject: Seq<char>, list: bool) -> Seq<char> {
    if list {
        "    for (const auto& x : "@
            + subject
            + ") std::cout << x << \" \";\n    std::cout << std::endl;\n"@
    } else {
        "    std::cout << "@ + subject + " << std::endl;\n"@
    }
}

/// Writes the statements that print the variable `subject`: item by item
/// where it holds a list.
fn print(subject: &str, list: bool) -> (r: String)
    ensures
        r@ == print_text(subject@, list),
{
    if list {
        let mut out = String::from_str("    for (const auto& x : ");
        out.append(subject);
        out.append(") std::cout << x << \" \";\n    std::cout << std::endl;\n");
        out
    } else {
        let mut out = String::from_str("    std::cout << ");
        out.append(subject);
        out.append(" << std::endl;\n");
        out
    }
}

/// The statements that print the variable of the first mutable reference;
/// nothing where no parameter is a mutable reference.
pub open spec fn output_print_text(sig: SignatureView) -> Seq<char> {
    match sig.first_mut_ref() {
        Some(p) => print_text(p.name, p.ty.referent() is Vec),
        None => Seq::empty(),
    }
}

/// Writes the statements that print the variable of the first mutable
/// reference; nothing where no parameter is a mutable reference.
fn output_print(sig: &FunctionSignature) -> (r: String)
    ensures
        r@ == output_print_text(sig@),
{
    match first_mut_ref(sig) {
        Some(p) => print(p.name.as_str(), matches!(unwrap_mut_ref(&p.ty), RustType::Vec(_))),
        None => String::new(),
    }
}

/// The body of the entry point, which runs the stub once on the first example
/// and prints the outcome. It is empty where there is no first example or its
/// input is no record.
pub open spec fn main_body_text(sig: SignatureView, tests: Seq<TestCaseView>) -> Seq<char> {
    match first_inputs(tests) {
        Some(inputs) => if sig.returns_through_parameter() {
            declarations_text(sig.params, inputs, Language::Cpp, "    "@, false, sig.params.len() as int)
                + output_call_text(sig, "    "@)
                + output_print_text(sig)
        } else {
            declarations_text(sig.params, inputs, Language::Cpp, "    "@, false, sig.params.len() as int)
                + return_call_text(sig, inputs, "    "@)
                + print_text("result"@, sig.return_type is Vec)
        },
        None => Seq::empty(),
    }
}

/// Writes the body of the entry point, which runs the stub once on the first
/// example and prints the outcome. It is empty where there is no first
/// example or its input is no record.
fn main_body(sig: &FunctionSignature, tests: &[TestCase]) -> (r: String)
    ensures
        r@ == main_body_text(sig@, views(tests@)),
{
    match first_test_inputs(tests) {
        Some(inputs) => if is_void_with_mut_ref(sig) {
            let mut out = declarations(sig, inputs, Language::Cpp, "    ", false);
            out.append(output_call(sig, "    ").as_str());
            out.append(output_print(sig).as_str());
            out
        } else {
            let mut out = declarations(sig, inputs, Language::Cpp, "    ", false);
            out.append(return_call(sig, inputs, "    ").as_str());
            out.append(print("result", matches!(sig.return_type, RustType::Vec(_))).as_str());
            out
        },
        None => String::new(),
    }
}

/// The source file: the stub and the entry point.
pub open spec fn solution_text(sig: SignatureView, tests: Seq<TestCaseView>) -> Seq<char> {
    includes_text(sig)
        + "\n\n"@
        + stub_text(sig)
        + "\n\nint main() {\n"@
        + main_body_text(sig, tests)
        + "    return 0;\n}"@
}

/// Writes the source file: the stub and the entry point.
fn solution(sig: &FunctionSignature, tests: &[TestCase]) -> (r: String)
    ensures
        r@ == solution_text(sig@, views(tests@)),
{
    let mut out = includes(sig);
    out.append("\n\n");
    out.append(stub(sig).as_str());
    out.append("\n\nint main() {\n");
    out.append(main_body(sig, tests).as_str());
    out.append("    return 0;\n}");
    out
}

/// The statements that compare the variable `subject` with the expected
/// value, report the test as passed or failed under its number, and count it.
pub open spec fn verdict_text(subject: Seq<char>, wanted: Seq<char>, number: nat) -> Seq<char> {
    "        if ("@
        + subject
        + " == "@
        + wanted
        + ") { std::cout << \"Test "@
        + decimal(number)
        + ": PASS\" << std::endl; passed++; }\n        else { std::cout << \"Test "@
        + decimal(number)
        + ": FAIL\" << std::endl; failed++; }\n"@
}

/// Writes the statements that compare the variable `subject` with the
/// expected value, report the test as passed or failed under its number, and
/// count it.
fn verdict(subject: &str, wanted: &str, number: usize) -> (r: String)
    ensures
        r@ == verdict_text(subject@, wanted@, number as nat),
{
    let mut out = String::from_str("        if (");
    out.append(subject);
    out.append(" == ");
    out.append(wanted);
    out.append(") { std::cout << \"Test ");
    out.append(decimal_string(number as u64).as_str());
    out.append(": PASS\" << std::endl; passed++; }\n        else { std::cout << \"Test ");
    out.append(decimal_string(number as u64).as_str());
    out.append(": FAIL\" << std::endl; failed++; }\n");
    out
}

/// The expected value as it stands in a comparison, written as a value of the
/// type `ty`: a list literal is given its type, since braces alone are no
/// expression.
pub open spec fn comparand_text(expected: ValueView, ty: RustType) -> Seq<char> {
    if ty is Vec {
        type_text(ty) + render(expected, ty, Language::Cpp)
    } else {
        render(expected, ty, Language::Cpp)
    }
}

/// Writes the expected value as it stands in a comparison, written as a value
/// of the type `ty`: a list literal is given its type, since braces alone are
/// no expression.
fn comparand(expected: &Value, ty: &RustType) -> (r: String)
    ensures
        r@ == comparand_text(expected@, *ty),
{
    if matches!(ty, RustType::Vec(_)) {
        let mut out = translate_type_cpp(ty);
        out.append(render_value(expected, ty, Language::Cpp).as_str());
        out
    } else {
        render_value(expected, ty, Language::Cpp)
    }
}

/// The verdict on the variable of the first mutable reference; nothing where
/// no parameter is a mutable reference.
pub open spec fn output_verdict_text(
    sig: SignatureView,
    expected: ValueView,
    number: nat,
) -> Seq<char> {
    match sig.first_mut_ref() {
        Some(p) => verdict_text(p.name, comparand_text(expected, p.ty.referent()), number),
        None => Seq::empty(),
    }
}

/// Writes the verdict on the variable of the first mutable reference; nothing
/// where no parameter is a mutable reference.
fn output_verdict(sig: &FunctionSignature, expected: &Value, number: usize) -> (r: String)
    ensures
        r@ == output_verdict_text(sig@, expected@, number as nat),
{
    match first_mut_ref(sig) {
        Some(p) => verdict(
            p.name.as_str(),
            comparand(expected, unwrap_mut_ref(&p.ty)).as_str(),
            number,
        ),
        None => String::new(),
    }
}

/// The body of a test of a function that hands its result back through a
/// parameter: the declarations, the call, and the verdict on the first
/// mutable reference.
pub open spec fn output_test_body_text(
    sig: SignatureView,
    inputs: Entries,
    expected: ValueView,
    number: nat,
) -> Seq<char> {
    declarations_text(sig.params, inputs, Language::Cpp, "        "@, false, sig.params.len() as int)
        + output_call_text(sig, "        "@)
        + output_verdict_text(sig, expected, number)
}

/// Writes the body of a test of a function that hands its result back through
/// a parameter: the declarations, the call, and the verdict on the first
/// mutable reference.
fn output_test_body(
    sig: &FunctionSignature,
    inputs: &Vec<(String, Value)>,
    expected: &Value,
    number: usize,
) -> (r: String)
    ensures
        r@ == output_test_body_text(sig@, entries_view(inputs@), expected@, number as nat),
{
    let mut out = declarations(sig, inputs, Language::Cpp, "        ", false);
    out.append(output_call(sig, "        ").as_str());
    out.append(output_verdict(sig, expected, number).as_str());
    out
}

/// The body of a test of a function that returns its result: the
/// declarations, the call, and the verdict on what was returned.
pub open spec fn return_test_body_text(
    sig: SignatureView,
    inputs: Entries,
    expected: ValueView,
    number: nat,
) -> Seq<char> {
    declarations_text(sig.params, inputs, Language::Cpp, "        "@, false, sig.params.len() as int)
        + return_call_text(sig, inputs, "        "@)
        + verdict_text("result"@, comparand_text(expected, sig.return_type), number)
}

/// Writes the body of a test of a function that returns its result: the
/// declarations, the call, and the verdict on what was returned.
fn return_test_body(
    sig: &FunctionSignature,
    inputs: &Vec<(String, Value)>,
    expected: &Value,
    number: usize,
) -> (r: String)
    ensures
        r@ == return_test_body_text(sig@, entries_view(inputs@), expected@, number as nat),
{
    let mut out = declarations(sig, inputs, Language::Cpp, "        ", false);
    out.append(return_call(sig, inputs, "        ").as_str());
    let part = verdict("result", comparand(expected, &sig.return_type).as_str(), number);
    out.append(part.as_str());
    out
}

/// The body of the test for one example. A function that returns nothing and
/// takes a mutable reference is tested on what it wrote to that parameter,
/// any other function on what it returned.
pub open spec fn test_body_text(
    sig: SignatureView,
    inputs: Entries,
    expected: ValueView,
    number: nat,
) -> Seq<char> {
    if sig.returns_through_parameter() {
        output_test_body_text(sig, inputs, expected, number)
    } else {
        return_test_body_text(sig, inputs, expected, number)
    }
}

/// Writes the body of the test for one example. A function that returns
/// nothing and takes a mutable reference is tested on what it wrote to that
/// parameter, any other function on what it returned.
fn test_body(
    sig: &FunctionSignature,
    inputs: &Vec<(String, Value)>,
    expected: &Value,
    number: usize,
) -> (r: String)
    ensures
        r@ == test_body_text(sig@, entries_view(inputs@), expected@, number as nat),
{
    if is_void_with_mut_ref(sig) {
        output_test_body(sig, inputs, expected, number)
    } else {
        return_test_body(sig, inputs, expected, number)
    }
}

/// The block that tests one example, under the example's number. An example
/// whose input is no record gives no block.
pub open spec fn test_block_text(sig: SignatureView, test: TestCaseView, number: nat) -> Seq<char> {
    match test.input.entries() {
        Some(inputs) => "    // Test "@
            + decimal(number)
            + "\n    {\n"@
            + test_body_text(sig, inputs, test.expected, number)
            + "    }\n\n"@,
        None => Seq::empty(),
    }
}

/// Writes the block that tests one example, under the example's number. An
/// example whose input is no record gives no block.
fn test_block(sig: &FunctionSignature, test: &TestCase, number: usize) -> (r: String)
    ensures
        r@ == test_block_text(sig@, test@, number as nat),
{
    match test.input.as_object() {
        Some(inputs) => {
            let mut out = String::from_str("    // Test ");
            out.append(decimal_string(number as u64).as_str());
            out.append("\n    {\n");
            out.append(test_body(sig, inputs, &test.expected, number).as_str());
            out.append("    }\n\n");
            out
        },
        None => String::new(),
    }
}

/// The blocks that test the examples, in order. Of the examples, the first
/// `n` are taken.
pub open spec fn test_blocks_text(
    sig: SignatureView,
    tests: Seq<TestCaseView>,
    n: int,
) -> Seq<char>
    decreases n,
{
    if n <= 0 || n > tests.len() {
        Seq::empty()
    } else {
        test_blocks_text(sig, tests, n - 1) + test_block_text(sig, tests[n - 1], n as nat)
    }
}

/// Writes the blocks that test the examples, in order.
fn test_blocks(sig: &FunctionSignature, tests: &[TestCase]) -> (r: String)
    ensures
        r@ == test_blocks_text(sig@, views(tests@), tests@.len() as int),
{
    let mut out = String::new();
    let mut i: usize = 0;
    while i < tests.len()
        invariant
            i <= tests@.len(),
            out@ == test_blocks_text(sig@, views(tests@), i as int),
        decreases tests@.len() - i,
    {
        out.append(test_block(sig, &tests[i], i + 1).as_str());
        i += 1;
    }
    out
}

/// The test program: it declares the function, runs one block for each
/// example, prints how many tests passed, and fails where one did not.
pub open spec fn tests_text(sig: SignatureView, tests: Seq<TestCaseView>) -> Seq<char> {
    "#include <iostream>\n#include <vector>\n#include <string>\n\n// Forward declaration - implemented in solution.cpp\n"@
        + prototype_text(sig)
        + ";\n\nint main() {\n    int passed = 0, failed = 0;\n\n"@
        + test_blocks_text(sig, tests, tests.len() as int)
        + "    std::cout << std::endl << passed << \"/\" << (passed + failed) << \" tests passed\" << std::endl;\n    return failed > 0 ? 1 : 0;\n}\n"@
}

/// Writes the test program: it declares the function, runs one block for each
/// example, prints how many tests passed, and fails where one did not.
pub fn generate_cpp_tests(sig: &FunctionSignature, tests: &[TestCase]) -> (r: String)
    ensures
        r@ == tests_text(sig@, views(tests@)),
{
    let mut out = String::from_str("#include <iostream>\n#include <vector>\n#include <string>\n\n// Forward declaration - implemented in solution.cpp\n");
    out.append(prototype(sig).as_str());
    out.append(";\n\nint main() {\n    int passed = 0, failed = 0;\n\n");
    out.append(test_blocks(sig, tests).as_str());
    out.append("    std::cout << std::endl << passed << \"/\" << (passed + failed) << \" tests passed\" << std::endl;\n    return failed > 0 ? 1 : 0;\n}\n");
    out
}

/// The makefile: how to build and run the solution and the tests.
pub open spec fn makefile_text() -> Seq<char> {
    "CXX = g++\nCXXFLAGS = -Wall -Wextra -std=c++17 -g\nTARGET = solution\nTEST_TARGET = test_runner\nSRC = solution.cpp\nTEST_SRC = test_solution.cpp\nLIB_SRC = solution_lib.cpp\n\nall: $(TARGET)\n\n$(TARGET): $(SRC)\n\t$(CXX) $(CXXFLAGS) -o $(TARGET) $(SRC)\n\ntest: $(TEST_TARGET)\n\t./$(TEST_TARGET)\n\n$(TEST_TARGET): $(TEST_SRC) $(LIB_SRC)\n\t$(CXX) $(CXXFLAGS) -o $(TEST_TARGET) $(LIB_SRC) $(TEST_SRC)\n\nrun: $(TARGET)\n\t./$(TARGET)\n\nclean:\n\trm -f $(TARGET) $(TEST_TARGET)\n\n.PHONY: all run clean test"@
}

/// The makefile.
fn makefile() -> (r: &'static str)
    ensures
        r@ == makefile_text(),
{
    "CXX = g++\nCXXFLAGS = -Wall -Wextra -std=c++17 -g\nTARGET = solution\nTEST_TARGET = test_runner\nSRC = solution.cpp\nTEST_SRC = test_solution.cpp\nLIB_SRC = solution_lib.cpp\n\nall: $(TARGET)\n\n$(TARGET): $(SRC)\n\t$(CXX) $(CXXFLAGS) -o $(TARGET) $(SRC)\n\ntest: $(TEST_TARGET)\n\t./$(TEST_TARGET)\n\n$(TEST_TARGET): $(TEST_SRC) $(LIB_SRC)\n\t$(CXX) $(CXXFLAGS) -o $(TEST_TARGET) $(LIB_SRC) $(TEST_SRC)\n\nrun: $(TARGET)\n\t./$(TARGET)\n\nclean:\n\trm -f $(TARGET) $(TEST_TARGET)\n\n.PHONY: all run clean test"
}

/// The setup script: it checks for the compiler and make, writes the
/// makefile, the source file, the header, the library, the test program and
/// the project record, and says how to run and test. `metadata` is the
/// project record as it is to be stored.
pub open spec fn setup_script_text(
    sig: SignatureView,
    tests: Seq<TestCaseView>,
    metadata: Seq<char>,
) -> Seq<char> {
    "#!/bin/bash\nset -e\n\n"@
        + required_commands_text(seq!["g++"@, "make"@])
        + "\n\ncat > Makefile << 'MAKEFILE'\n"@
        + makefile_text()
        + "\nMAKEFILE\n\ncat > solution.cpp << 'SOLUTION'\n"@
        + solution_text(sig, tests)
        + "\nSOLUTION\n\ncat > solution.hpp << 'HEADER'\n"@
        + header_text(sig)
        + "\nHEADER\n\ncat > solution_lib.cpp << 'SOLUTION_LIB'\n"@
        + library_text(sig)
        + "\nSOLUTION_LIB\n\ncat > test_solution.cpp << 'TESTS'\n"@
        + tests_text(sig, tests)
        + "\nTESTS\n\ncat > .codle.json << 'METADATA'\n"@
        + metadata
        + "\nMETADATA\n\necho \"Run: make && ./solution\"\necho \"Test: make test\"\n"@
}

/// Writes the setup script: it checks for the compiler and make, writes the
/// makefile, the source file, the header, the library, the test program and
/// the project record, and says how to run and test. `metadata` is the
/// project record as it is to be stored.
pub fn generate_cpp(challenge: &Challenge, sig: &FunctionSignature, metadata: &str) -> (r: String)
    ensures
        r@ == setup_script_text(sig@, views(challenge.tests@), metadata@),
{
    let tests = challenge.tests.as_slice();
    assert(views((&["g++", "make"])@) =~= seq!["g++"@, "make"@]);
    let mut out = String::from_str("#!/bin/bash\nset -e\n\n");
    out.append(require_commands(&["g++", "make"]).as_str());
    out.append("\n\ncat > Makefile << 'MAKEFILE'\n");
    out.append(makefile());
    out.append("\nMAKEFILE\n\ncat > solution.cpp << 'SOLUTION'\n");
    out.append(escape_for_heredoc(solution(sig, tests).as_str()).as_str());
    out.append("\nSOLUTION\n\ncat > solution.hpp << 'HEADER'\n");
    out.append(escape_for_heredoc(header(sig).as_str()).as_str());
    out.append("\nHEADER\n\ncat > solution_lib.cpp << 'SOLUTION_LIB'\n");
    out.append(escape_for_heredoc(library(sig).as_str()).as_str());
    out.append("\nSOLUTION_LIB\n\ncat > test_solution.cpp << 'TESTS'\n");
    out.append(escape_for_heredoc(generate_cpp_tests(sig, tests).as_str()).as_str());
    out.append("\nTESTS\n\ncat > .codle.json << 'METADATA'\n");
    out.append(metadata);
    out.append("\nMETADATA\n\necho \"Run: make && ./solution\"\necho \"Test: make test\"\n");
    out
}

} // verus!
