//! Scaffolds in Rust.
use vstd::prelude::*;
use vstd::string::*;
use crate::models::challenge::{Challenge, TestCase, TestCaseView};
use crate::models::language::Language;
use crate::models::signature::{FunctionSignature, Param, ParamView, RustType, SignatureView};
use crate::models::value::{Entries, entries_view, Value, ValueView};
use crate::text::{decimal, decimal_string, join, joined, views};
use super::{
    declarations, declarations_text, escape_for_heredoc, first_inputs, first_mut_ref,
    first_test_inputs, is_void_with_mut_ref, present_name_texts, present_names, render,
    render_value, require_commands, required_commands_text, unwrap_mut_ref,
};

verus! {

/// How the type `ty` is written in Rust.
pub open spec fn type_text(ty: RustType) -> Seq<char>
    decreases ty,
{
    match ty {
        RustType::I32 => "i32"@,
        RustType::F64 => "f64"@,
        RustType::Usize => "usize"@,
        RustType::Bool => "bool"@,
        RustType::String => "String"@,
        RustType::Char => "char"@,
        RustType::Vec(inner) => "Vec<"@ + type_text(*inner) + ">"@,
        RustType::MutRef(inner) => "&mut "@ + type_text(*inner),
        RustType::Void => "()"@,
    }
}

/// Writes the type `ty` in Rust.
pub fn translate_type_rs(ty: &RustType) -> (r: String)
    ensures
        r@ == type_text(*ty),
    decreases ty,
{
    match ty {
        RustType::I32 => String::from_str("i32"),
        RustType::F64 => String::from_str("f64"),
        RustType::Usize => String::from_str("usize"),
        RustType::Bool => String::from_str("bool"),
        RustType::String => String::from_str("String"),
        RustType::Char => String::from_str("char"),
        RustType::Vec(inner) => {
                let mut out = String::from_str("Vec<");
                out.append(translate_type_rs(inner).as_str());
                out.append(">");
                out
            },
        RustType::MutRef(inner) => {
                let mut out = String::from_str("&mut ");
                out.append(translate_type_rs(inner).as_str());
                out
            },
        RustType::Void => String::from_str("()"),
    }
}

/// The argument for the parameter `p`: its variable, borrowed mutably where
/// the parameter is a mutable reference.
pub open spec fn call_argument_text(p: ParamView) -> Seq<char> {
    if p.ty is MutRef {
        "&mut "@ + p.name
    } else {
        p.name
    }
}

/// Writes the argument for the parameter `p`: its variable, borrowed mutably
/// where the parameter is a mutable reference.
fn call_argument(p: &Param) -> (r: String)
    ensures
        r@ == call_argument_text(p@),
{
    if matches!(p.ty, RustType::MutRef(_)) {
        let mut out = String::from_str("&mut ");
        out.append(p.name.as_str());
        out
    } else {
        String::from_str(p.name.as_str())
    }
}

/// The arguments of a call that hands each mutable reference a variable to
/// write to.
pub open spec fn call_argument_texts(params: Seq<ParamView>) -> Seq<Seq<char>> {
    Seq::new(params.len(), |i: int| call_argument_text(params[i]))
}

/// Writes the arguments of a call that hands each mutable reference a
/// variable to write to.
pub fn call_arguments(sig: &FunctionSignature) -> (r: Vec<String>)
    ensures
        views(r@) == call_argument_texts(sig@.params),
{
    let mut out: Vec<String> = Vec::new();
    let mut i: usize = 0;
    while i < sig.params.len()
        invariant
            i <= sig.params@.len(),
            out@.len() == i,
            forall|k: int|
                0 <= k < i ==> (#[trigger] out@[k])@ == call_argument_text(sig.params@[k]@),
        decreases sig.params@.len() - i,
    {
        out.push(call_argument(&sig.params[i]));
        i += 1;
    }
    assert(views(out@) =~= call_argument_texts(sig@.params));
    out
}

/// The parameter `p` as it is declared: its name and its type.
pub open spec fn parameter_text(p: ParamView) -> Seq<char> {
    p.name + ": "@ + type_text(p.ty)
}

/// Writes the parameter `p` as it is declared: its name and its type.
fn parameter(p: &Param) -> (r: String)
    ensures
        r@ == parameter_text(p@),
{
    let mut out = String::from_str(p.name.as_str());
    out.append(": ");
    out.append(translate_type_rs(&p.ty).as_str());
    out
}

/// The parameters as they are declared in the stub.
pub open spec fn parameter_texts(params: Seq<ParamView>) -> Seq<Seq<char>> {
    Seq::new(params.len(), |i: int| parameter_text(params[i]))
}

/// Writes the parameters as they are declared in the stub.
pub fn parameters(sig: &FunctionSignature) -> (r: Vec<String>)
    ensures
        views(r@) == parameter_texts(sig@.params),
{
    let mut out: Vec<String> = Vec::new();
    let mut i: usize = 0;
    while i < sig.params.len()
        invariant
            i <= sig.params@.len(),
            out@.len() == i,
            forall|k: int|
                0 <= k < i ==> (#[trigger] out@[k])@ == parameter_text(sig.params@[k]@),
        decreases sig.params@.len() - i,
    {
        out.push(parameter(&sig.params[i]));
        i += 1;
    }
    assert(views(out@) =~= parameter_texts(sig@.params));
    out
}

/// The statement that calls the function for what it writes to its
/// parameters.
pub open spec fn output_call_text(sig: SignatureView, indent: Seq<char>) -> Seq<char> {
    indent + sig.name + "("@ + joined(call_argument_texts(sig.params), ", "@) + ");\n"@
}

/// Writes the statement that calls the function for what it writes to its
/// parameters.
fn output_call(sig: &FunctionSignature, indent: &str) -> (r: String)
    ensures
        r@ == output_call_text(sig@, indent@),
{
    let mut out = String::from_str(indent);
    out.append(sig.name.as_str());
    out.append("(");
    out.append(join(&call_arguments(sig), ", ").as_str());
    out.append(");\n");
    out
}

/// The statement that holds the variable of the first mutable reference
/// against the expected value; nothing where no parameter is a mutable
/// reference.
pub open spec fn output_assertion_text(
    sig: SignatureView,
    expected: ValueView,
    indent: Seq<char>,
) -> Seq<char> {
    match sig.first_mut_ref() {
        Some(p) => indent
            + "assert_eq!("@
            + p.name
            + ", "@
            + render(expected, p.ty.referent(), Language::Rs)
            + ");\n"@,
        None => Seq::empty(),
    }
}

/// Writes the statement that holds the variable of the first mutable
/// reference against the expected value; nothing where no parameter is a
/// mutable reference.
fn output_assertion(sig: &FunctionSignature, expected: &Value, indent: &str) -> (r: String)
    ensures
        r@ == output_assertion_text(sig@, expected@, indent@),
{
    match first_mut_ref(sig) {
        Some(p) => {
            let mut out = String::from_str(indent);
            out.append("assert_eq!(");
            out.append(p.name.as_str());
            out.append(", ");
            out.append(render_value(expected, unwrap_mut_ref(&p.ty), Language::Rs).as_str());
            out.append(");\n");
            out
        },
        None => String::new(),
    }
}

/// The statement that prints the variable of the first mutable reference;
/// nothing where no parameter is a mutable reference.
pub open spec fn output_print_text(sig: SignatureView, indent: Seq<char>) -> Seq<char> {
    match sig.first_mut_ref() {
        Some(p) => indent + "println!(\"{:?}\", "@ + p.name + ");\n"@,
        None => Seq::empty(),
    }
}

/// Writes the statement that prints the variable of the first mutable
/// reference; nothing where no parameter is a mutable reference.
fn output_print(sig: &FunctionSignature, indent: &str) -> (r: String)
    ensures
        r@ == output_print_text(sig@, indent@),
{
    match first_mut_ref(sig) {
        Some(p) => {
            let mut out = String::from_str(indent);
            out.append("println!(\"{:?}\", ");
            out.append(p.name.as_str());
            out.append(");\n");
            out
        },
        None => String::new(),
    }
}

/// The statement that calls the function with the arguments that `inputs` has
/// and keeps what it returns.
pub open spec fn return_call_text(
    sig: SignatureView,
    inputs: Entries,
    indent: Seq<char>,
) -> Seq<char> {
    indent
        + "let result = "@
        + sig.name
        + "("@
        + joined(present_name_texts(sig.params, inputs, sig.params.len() as int), ", "@)
        + ");\n"@
}

/// Writes the statement that calls the function with the arguments that
/// `inputs` has and keeps what it returns.
fn return_call(sig: &FunctionSignature, inputs: &Vec<(String, Value)>, indent: &str) -> (r: String)
    ensures
        r@ == return_call_text(sig@, entries_view(inputs@), indent@),
{
    let mut out = String::from_str(indent);
    out.append("let result = ");
    out.append(sig.name.as_str());
    out.append("(");
    out.append(join(&present_names(sig, inputs), ", ").as_str());
    out.append(");\n");
    out
}

/// The statement that holds what the function returned against the expected
/// value.
pub open spec fn return_assertion_text(
    sig: SignatureView,
    expected: ValueView,
    indent: Seq<char>,
) -> Seq<char> {
    indent
        + "assert_eq!(result, "@
        + render(expected, sig.return_type, Language::Rs)
        + ");\n"@
}

/// Writes the statement that holds what the function returned against the
/// expected value.
fn return_assertion(sig: &FunctionSignature, expected: &Value, indent: &str) -> (r: String)
    ensures
        r@ == return_assertion_text(sig@, expected@, indent@),
{
    let mut out = String::from_str(indent);
    out.append("assert_eq!(result, ");
    out.append(render_value(expected, &sig.return_type, Language::Rs).as_str());
    out.append(");\n");
    out
}

/// The body of a test of a function that hands its result back through a
/// parameter: the declarations, the call, and the assertion on the first
/// mutable reference.
pub open spec fn output_test_body_text(
    sig: SignatureView,
    inputs: Entries,
    expected: ValueView,
    indent: Seq<char>,
) -> Seq<char> {
    declarations_text(sig.params, inputs, Language::Rs, indent, true, sig.params.len() as int)
        + output_call_text(sig, indent)
        + output_assertion_text(sig, expected, indent)
}

/// Writes the body of a test of a function that hands its result back through
/// a parameter: the declarations, the call, and the assertion on the first
/// mutable reference.
fn output_test_body(
    sig: &FunctionSignature,
    inputs: &Vec<(String, Value)>,
    expected: &Value,
    indent: &str,
) -> (r: String)
    ensures
        r@ == output_test_body_text(sig@, entries_view(inputs@), expected@, indent@),
{
    let mut out = declarations(sig, inputs, Language::Rs, indent, true);
    out.append(output_call(sig, indent).as_str());
    out.append(output_assertion(sig, expected, indent).as_str());
    out
}

/// The body of a test of a function that returns its result: the
/// declarations, the call, and the assertion on what was returned.
pub open spec fn return_test_body_text(
    sig: SignatureView,
    inputs: Entries,
    expected: ValueView,
    indent: Seq<char>,
) -> Seq<char> {
    declarations_text(sig.params, inputs, Language::Rs, indent, false, sig.params.len() as int)
        + return_call_text(sig, inputs, indent)
        + return_assertion_text(sig, expected, indent)
}

/// Writes the body of a test of a function that returns its result: the
/// declarations, the call, and the assertion on what was returned.
fn return_test_body(
    sig: &FunctionSignature,
    inputs: &Vec<(String, Value)>,
    expected: &Value,
    indent: &str,
) -> (r: String)
    ensures
        r@ == return_test_body_text(sig@, entries_view(inputs@), expected@, indent@),
{
    let mut out = declarations(sig, inputs, Language::Rs, indent, false);
    out.append(return_call(sig, inputs, indent).as_str());
    out.append(return_assertion(sig, expected, indent).as_str());
    out
}

/// The body of the test for one example. A function that returns nothing and
/// takes a mutable reference is tested on what it wrote to that parameter,
/// any other function on what it returned. An example whose input is no
/// record gives an empty body.
pub open spec fn test_body_text(sig: SignatureView, test: TestCaseView) -> Seq<char> {
    match test.input.entries() {
        Some(inputs) => if sig.returns_through_parameter() {
            output_test_body_text(sig, inputs, test.expected, "        "@)
        } else {
            return_test_body_text(sig, inputs, test.expected, "        "@)
        },
        None => Seq::empty(),
    }
}

/// Writes the body of the test for one example. A function that returns
/// nothing and takes a mutable reference is tested on what it wrote to that
/// parameter, any other function on what it returned. An example whose input
/// is no record gives an empty body.
fn test_body(sig: &FunctionSignature, test: &TestCase) -> (r: String)
    ensures
        r@ == test_body_text(sig@, test@),
{
    match test.input.as_object() {
        Some(inputs) => if is_void_with_mut_ref(sig) {
            output_test_body(sig, inputs, &test.expected, "        ")
        } else {
            return_test_body(sig, inputs, &test.expected, "        ")
        },
        None => String::new(),
    }
}

/// The test function for one example, named by the example's number.
pub open spec fn test_function_text(
    sig: SignatureView,
    test: TestCaseView,
    number: nat,
) -> Seq<char> {
    "    #[test]\n    fn test_"@
        + decimal(number)
        + "() {\n"@
        + test_body_text(sig, test)
        + "    }"@
}

/// Writes the test function for one example, named by the example's number.
fn test_function(sig: &FunctionSignature, test: &TestCase, number: usize) -> (r: String)
    ensures
        r@ == test_function_text(sig@, test@, number as nat),
{
    let mut out = String::from_str("    #[test]\n    fn test_");
    out.append(decimal_string(number as u64).as_str());
    out.append("() {\n");
    out.append(test_body(sig, test).as_str());
    out.append("    }");
    out
}

/// The test functions for the examples, in order.
pub open spec fn test_function_texts(
    sig: SignatureView,
    tests: Seq<TestCaseView>,
) -> Seq<Seq<char>> {
    Seq::new(tests.len(), |i: int| test_function_text(sig, tests[i], (i + 1) as nat))
}

/// Writes the test functions for the examples, in order.
fn test_functions(sig: &FunctionSignature, tests: &[TestCase]) -> (r: Vec<String>)
    ensures
        views(r@) == test_function_texts(sig@, views(tests@)),
{
    let mut out: Vec<String> = Vec::new();
    let mut i: usize = 0;
    while i < tests.len()
        invariant
            i <= tests@.len(),
            out@.len() == i,
            forall|k: int|
                0 <= k < i ==> (#[trigger] out@[k])@ == test_function_text(
                    sig@,
                    tests@[k]@,
                    (k + 1) as nat,
                ),
        decreases tests@.len() - i,
    {
        out.push(test_function(sig, &tests[i], i + 1));
        i += 1;
    }
    assert(views(out@) =~= test_function_texts(sig@, views(tests@)));
    out
}

/// The test module: one test function for each example, an empty line between
/// each two.
pub open spec fn tests_text(sig: SignatureView, tests: Seq<TestCaseView>) -> Seq<char> {
    "\n#[cfg(test)]\nmod tests {\n    use super::*;\n\n"@
        + joined(test_function_texts(sig, tests), "\n\n"@)
        + "\n}"@
}

/// Writes the test module: one test function for each example, an empty line
/// between each two.
pub fn generate_rust_tests(sig: &FunctionSignature, tests: &[TestCase]) -> (r: String)
    ensures
        r@ == tests_text(sig@, views(tests@)),
{
    let mut out = String::from_str("\n#[cfg(test)]\nmod tests {\n    use super::*;\n\n");
    out.append(join(&test_functions(sig, tests), "\n\n").as_str());
    out.append("\n}");
    out
}

/// The body of the entry point, which runs the stub once on the first example
/// and prints the outcome. It is empty where there is no first example or its
/// input is no record.
pub open spec fn main_body_text(sig: SignatureView, tests: Seq<TestCaseView>) -> Seq<char> {
    match first_inputs(tests) {
        Some(inputs) => if sig.returns_through_parameter() {
            declarations_text(sig.params, inputs, Language::Rs, "    "@, true, sig.params.len() as int)
                + output_call_text(sig, "    "@)
                + output_print_text(sig, "    "@)
        } else {
            declarations_text(sig.params, inputs, Language::Rs, "    "@, false, sig.params.len() as int)
                + return_call_text(sig, inputs, "    "@)
                + "    println!(\"{:?}\", result);\n"@
        },
        None => Seq::empty(),
    }
}

/// Writes the body of the entry point, which runs the stub once on the first
/// example and prints the outcome. It is empty where there is no first
/// example or its input is no record.
fn main_body(sig: &FunctionSignature, tests: &[TestCase]) -> (r: String)
    ensures
        r@ == main_body_text(sig@, views(tests@)),
{
    match first_test_inputs(tests) {
        Some(inputs) => if is_void_with_mut_ref(sig) {
            let mut out = declarations(sig, inputs, Language::Rs, "    ", true);
            out.append(output_call(sig, "    ").as_str());
            out.append(output_print(sig, "    ").as_str());
            out
        } else {
            let mut out = declarations(sig, inputs, Language::Rs, "    ", false);
            out.append(return_call(sig, inputs, "    ").as_str());
            out.append("    println!(\"{:?}\", result);\n");
            out
        },
        None => String::new(),
    }
}

/// What the stub's header says of the result: nothing for a function that
/// returns nothing.
pub open spec fn result_clause_text(sig: SignatureView) -> Seq<char> {
    if sig.return_type is Void {
        Seq::empty()
    } else {
        " -> "@ + type_text(sig.return_type)
    }
}

/// Writes what the stub's header says of the result: nothing for a function
/// that returns nothing.
fn result_clause(sig: &FunctionSignature) -> (r: String)
    ensures
        r@ == result_clause_text(sig@),
{
    if matches!(sig.return_type, RustType::Void) {
        String::new()
    } else {
        let mut out = String::from_str(" -> ");
        out.append(translate_type_rs(&sig.return_type).as_str());
        out
    }
}

/// The function's header, which is the signature in its notation: `fn`, the
/// name, the parameters between parentheses, and the result where there is
/// one.
pub open spec fn header_text(sig: SignatureView) -> Seq<char> {
    "fn "@
        + sig.name
        + "("@
        + joined(parameter_texts(sig.params), ", "@)
        + ")"@
        + result_clause_text(sig)
}

/// Writes the function's header, which is the signature in its notation:
/// `fn`, the name, the parameters between parentheses, and the result where
/// there is one.
pub fn header(sig: &FunctionSignature) -> (r: String)
    ensures
        r@ == header_text(sig@),
{
    let mut out = String::from_str("fn ");
    out.append(sig.name.as_str());
    out.append("(");
    out.append(join(&parameters(sig), ", ").as_str());
    out.append(")");
    out.append(result_clause(sig).as_str());
    out
}

/// The source file: the stub, whose body fails when run, the entry point, and
/// the test module.
pub open spec fn solution_text(sig: SignatureView, tests: Seq<TestCaseView>) -> Seq<char> {
    header_text(sig)
        + " {\n    todo!()\n}\n\nfn main() {\n"@
        + main_body_text(sig, tests)
        + "}\n"@
        + tests_text(sig, tests)
}

/// Writes the source file: the stub, whose body fails when run, the entry
/// point, and the test module.
fn solution(sig: &FunctionSignature, tests: &[TestCase]) -> (r: String)
    ensures
        r@ == solution_text(sig@, views(tests@)),
{
    let mut out = header(sig);
    out.append(" {\n    todo!()\n}\n\nfn main() {\n");
    out.append(main_body(sig, tests).as_str());
    out.append("}\n");
    out.append(generate_rust_tests(sig, tests).as_str());
    out
}

/// The setup script: it checks for cargo, makes a new package named after the
/// function, writes the source file and the project record into it, and says
/// how to run and test. `metadata` is the project record as it is to be
/// stored.
pub open spec fn setup_script_text(
    sig: SignatureView,
    tests: Seq<TestCaseView>,
    metadata: Seq<char>,
) -> Seq<char> {
    "#!/bin/bash\nset -e\n\n"@
        + required_commands_text(seq!["cargo"@])
        + "\n\ncargo init --name \""@
        + sig.name
        + "\"\n\ncat > src/main.rs << 'SOLUTION'\n"@
        + solution_text(sig, tests)
        + "\nSOLUTION\n\ncat > .codle.json << 'METADATA'\n"@
        + metadata
        + "\nMETADATA\n\necho \"Run: cargo run\"\necho \"Test: cargo test\"\n"@
}

/// Writes the setup script: it checks for cargo, makes a new package named
/// after the function, writes the source file and the project record into it,
/// and says how to run and test. `metadata` is the project record as it is to
/// be stored.
pub fn generate_rust(challenge: &Challenge, sig: &FunctionSignature, metadata: &str) -> (r: String)
    ensures
        r@ == setup_script_text(sig@, views(challenge.tests@), metadata@),
{
    let tests = challenge.tests.as_slice();
    assert(views((&["cargo"])@) =~= seq!["cargo"@]);
    let mut out = String::from_str("#!/bin/bash\nset -e\n\n");
    out.append(require_commands(&["cargo"]).as_str());
    out.append("\n\ncargo init --name \"");
    out.append(sig.name.as_str());
    out.append("\"\n\ncat > src/main.rs << 'SOLUTION'\n");
    out.append(escape_for_heredoc(solution(sig, tests).as_str()).as_str());
    out.append("\nSOLUTION\n\ncat > .codle.json << 'METADATA'\n");
    out.append(metadata);
    out.append("\nMETADATA\n\necho \"Run: cargo run\"\necho \"Test: cargo test\"\n");
    out
}

} // verus!
