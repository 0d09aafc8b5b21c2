//! Scaffolds in Python.
use vstd::prelude::*;
use vstd::string::*;
use crate::models::challenge::{Challenge, TestCase, TestCaseView};
use crate::models::language::Language;
use crate::models::signature::{FunctionSignature, Param, ParamView, RustType, SignatureView};
use crate::models::value::{Entries, entries_view, Value, ValueView};
use crate::text::{decimal, decimal_string, join, joined, views};
use super::{
    declarations, declarations_text, escape_for_heredoc, first_inputs, first_mut_ref,
    first_test_inputs, is_void_with_mut_ref, name_texts, names, present_name_texts, present_names,
    render, render_value, require_commands, required_commands_text, unwrap_mut_ref,
};

verus! {

/// How the type `ty` is written in Python.
pub open spec fn type_text(ty: RustType) -> Seq<char>
    decreases ty,
{
    match ty {
        RustType::I32 => "int"@,
        RustType::F64 => "float"@,
        RustType::Usize => "int"@,
        RustType::Bool => "bool"@,
        RustType::String => "str"@,
        RustType::Char => "str"@,
        RustType::Vec(inner) => "list["@ + type_text(*inner) + "]"@,
        RustType::MutRef(inner) => type_text(*inner),
        RustType::Void => "None"@,
    }
}

/// Writes the type `ty` in Python.
pub fn translate_type_py(ty: &RustType) -> (r: String)
    ensures
        r@ == type_text(*ty),
    decreases ty,
{
    match ty {
        RustType::I32 => String::from_str("int"),
        RustType::F64 => String::from_str("float"),
        RustType::Usize => String::from_str("int"),
        RustType::Bool => String::from_str("bool"),
        RustType::String => String::from_str("str"),
        RustType::Char => String::from_str("str"),
        RustType::Vec(inner) => {
                let mut out = String::from_str("list[");
                out.append(translate_type_py(inner).as_str());
                out.append("]");
                out
            },
        RustType::MutRef(inner) => translate_type_py(inner),
        RustType::Void => String::from_str("None"),
    }
}

/// The parameter `p` as it is declared: its name and, as a hint, the type of
/// what it holds.
pub open spec fn parameter_text(p: ParamView) -> Seq<char> {
    p.name + ": "@ + type_text(p.ty.referent())
}

/// Writes the parameter `p` as it is declared: its name and, as a hint, the
/// type of what it holds.
fn parameter(p: &Param) -> (r: String)
    ensures
        r@ == parameter_text(p@),
{
    let mut out = String::from_str(p.name.as_str());
    out.append(": ");
    out.append(translate_type_py(unwrap_mut_ref(&p.ty)).as_str());
    out
}

/// The parameters as they are declared in the stub.
pub open spec fn parameter_texts(params: Seq<ParamView>) -> Seq<Seq<char>> {
    Seq::new(params.len(), |i: int| parameter_text(params[i]))
}

/// Writes the parameters as they are declared in the stub.
pub fn parameters(sig: &FunctionSignature) -> (r: Vec<String>)
    ensures
        views(r@) == parameter_texts(sig@.params),
{
    let mut out: Vec<String> = Vec::new();
    let mut i: usize = 0;
    while i < sig.params.len()
        invariant
            i <= sig.params@.len(),
            out@.len() == i,
            forall|k: int|
                0 <= k < i ==> (#[trigger] out@[k])@ == parameter_text(sig.params@[k]@),
        decreases sig.params@.len() - i,
    {
        out.push(parameter(&sig.params[i]));
        i += 1;
    }
    assert(views(out@) =~= parameter_texts(sig@.params));
    out
}

/// The statement that calls the function for what it writes to its
/// parameters.
pub open spec fn output_call_text(sig: SignatureView) -> Seq<char> {
    "    "@ + sig.name + "("@ + joined(name_texts(sig.params), ", "@) + ")\n"@
}

/// Writes the statement that calls the function for what it writes to its
/// parameters.
fn output_call(sig: &FunctionSignature) -> (r: String)
    ensures
        r@ == output_call_text(sig@),
{
    let mut out = String::from_str("    ");
    out.append(sig.name.as_str());
    out.append("(");
    out.append(join(&names(sig), ", ").as_str());
    out.append(")\n");
    out
}

/// The statement that calls the function with the arguments that `inputs` has
/// and keeps what it returns.
pub open spec fn return_call_text(sig: SignatureView, inputs: Entries) -> Seq<char> {
    "    result = "@
        + sig.name
        + "("@
        + joined(present_name_texts(sig.params, inputs, sig.params.len() as int), ", "@)
        + ")\n"@
}

/// Writes the statement that calls the function with the arguments that
/// `inputs` has and keeps what it returns.
fn return_call(sig: &FunctionSignature, inputs: &Vec<(String, Value)>) -> (r: String)
    ensures
        r@ == return_call_text(sig@, entries_view(inputs@)),
{
    let mut out = String::from_str("    result = ");
    out.append(sig.name.as_str());
    out.append("(");
    out.append(join(&present_names(sig, inputs), ", ").as_str());
    out.append(")\n");
    out
}

/// The statement that holds the variable of the first mutable reference
/// against the expected value; nothing where no parameter is a mutable
/// reference.
pub open spec fn output_assertion_text(sig: SignatureView, expected: ValueView) -> Seq<char> {
    match sig.first_mut_ref() {
        Some(p) => "    assert "@
            + p.name
            + " == "@
            + render(expected, p.ty.referent(), Language::Py)
            + "\n"@,
        None => Seq::empty(),
    }
}

/// Writes the statement that holds the variable of the first mutable
/// reference against the expected value; nothing where no parameter is a
/// mutable reference.
fn output_assertion(sig: &FunctionSignature, expected: &Value) -> (r: String)
    ensures
        r@ == output_assertion_text(sig@, expected@),
{
    match first_mut_ref(sig) {
        Some(p) => {
            let mut out = String::from_str("    assert ");
            out.append(p.name.as_str());
            out.append(" == ");
            out.append(render_value(expected, unwrap_mut_ref(&p.ty), Language::Py).as_str());
            out.append("\n");
            out
        },
        None => String::new(),
    }
}

/// The statement that prints the variable of the first mutable reference;
/// nothing where no parameter is a mutable reference.
pub open spec fn output_print_text(sig: SignatureView) -> Seq<char> {
    match sig.first_mut_ref() {
        Some(p) => "    print("@ + p.name + ")\n"@,
        None => Seq::empty(),
    }
}

/// Writes the statement that prints the variable of the first mutable
/// reference; nothing where no parameter is a mutable reference.
fn output_print(sig: &FunctionSignature) -> (r: String)
    ensures
        r@ == output_print_text(sig@),
{
    match first_mut_ref(sig) {
        Some(p) => {
            let mut out = String::from_str("    print(");
            out.append(p.name.as_str());
            out.append(")\n");
            out
        },
        None => String::new(),
    }
}

/// The body of a test of a function that hands its result back through a
/// parameter: the declarations, the call, and the assertion on the first
/// mutable reference.
pub open spec fn output_test_body_text(
    sig: SignatureView,
    inputs: Entries,
    expected: ValueView,
) -> Seq<char> {
    declarations_text(sig.params, inputs, Language::Py, "    "@, false, sig.params.len() as int)
        + output_call_text(sig)
        + output_assertion_text(sig, expected)
}

/// Writes the body of a test of a function that hands its result back through
/// a parameter: the declarations, the call, and the assertion on the first
/// mutable reference.
fn output_test_body(
    sig: &FunctionSignature,
    inputs: &Vec<(String, Value)>,
    expected: &Value,
) -> (r: String)
    ensures
        r@ == output_test_body_text(sig@, entries_view(inputs@), expected@),
{
    let mut out = declarations(sig, inputs, Language::Py, "    ", false);
    out.append(output_call(sig).as_str());
    out.append(output_assertion(sig, expected).as_str());
    out
}

/// The body of a test of a function that returns its result: the
/// declarations, the call, and the assertion on what was returned.
pub open spec fn return_test_body_text(
    sig: SignatureView,
    inputs: Entries,
    expected: ValueView,
) -> Seq<char> {
    declarations_text(sig.params, inputs, Language::Py, "    "@, false, sig.params.len() as int)
        + return_call_text(sig, inputs)
        + "    assert result == "@
        + render(expected, sig.return_type, Language::Py)
        + "\n"@
}

/// Writes the body of a test of a function that returns its result: the
/// declarations, the call, and the assertion on what was returned.
fn return_test_body(
    sig: &FunctionSignature,
    inputs: &Vec<(String, Value)>,
    expected: &Value,
) -> (r: String)
    ensures
        r@ == return_test_body_text(sig@, entries_view(inputs@), expected@),
{
    let mut out = declarations(sig, inputs, Language::Py, "    ", false);
    out.append(return_call(sig, inputs).as_str());
    out.append("    assert result == ");
    out.append(render_value(expected, &sig.return_type, Language::Py).as_str());
    out.append("\n");
    out
}

/// The body of the test for one example. A function that returns nothing and
/// takes a mutable reference is tested on what it wrote to that parameter,
/// any other function on what it returned. An example whose input is no
/// record gives an empty body.
pub open spec fn test_body_text(sig: SignatureView, test: TestCaseView) -> Seq<char> {
    match test.input.entries() {
        Some(inputs) => if sig.returns_through_parameter() {
            output_test_body_text(sig, inputs, test.expected)
        } else {
            return_test_body_text(sig, inputs, test.expected)
        },
        None => Seq::empty(),
    }
}

/// Writes the body of the test for one example. A function that returns
/// nothing and takes a mutable reference is tested on what it wrote to that
/// parameter, any other function on what it returned. An example whose input
/// is no record gives an empty body.
fn test_body(sig: &FunctionSignature, test: &TestCase) -> (r: String)
    ensures
        r@ == test_body_text(sig@, test@),
{
    match test.input.as_object() {
        Some(inputs) => if is_void_with_mut_ref(sig) {
            output_test_body(sig, inputs, &test.expected)
        } else {
            return_test_body(sig, inputs, &test.expected)
        },
        None => String::new(),
    }
}

/// The test function for one example, named by the example's number.
pub open spec fn test_function_text(
    sig: SignatureView,
    test: TestCaseView,
    number: nat,
) -> Seq<char> {
    "\ndef test_"@ + decimal(number) + "():\n"@ + test_body_text(sig, test)
}

/// Writes the test function for one example, named by the example's number.
fn test_function(sig: &FunctionSignature, test: &TestCase, number: usize) -> (r: String)
    ensures
        r@ == test_function_text(sig@, test@, number as nat),
{
    let mut out = String::from_str("\ndef test_");
    out.append(decimal_string(number as u64).as_str());
    out.append("():\n");
    out.append(test_body(sig, test).as_str());
    out
}

/// The line that brings the function under test into the test file.
pub open spec fn import_line_text(sig: SignatureView) -> Seq<char> {
    "from solution import "@ + sig.name + "\n"@
}

/// Writes the line that brings the function under test into the test file.
fn import_line(sig: &FunctionSignature) -> (r: String)
    ensures
        r@ == import_line_text(sig@),
{
    let mut out = String::from_str("from solution import ");
    out.append(sig.name.as_str());
    out.append("\n");
    out
}

/// The pieces of the test file: the import, then the test function for each
/// example, in order.
pub open spec fn test_file_texts(sig: SignatureView, tests: Seq<TestCaseView>) -> Seq<Seq<char>> {
    Seq::new(
        tests.len() + 1,
        |i: int|
            if i == 0 {
                import_line_text(sig)
            } else {
                test_function_text(sig, tests[i - 1], i as nat)
            },
    )
}

/// Writes the pieces of the test file.
fn test_file(sig: &FunctionSignature, tests: &[TestCase]) -> (r: Vec<String>)
    ensures
        views(r@) == test_file_texts(sig@, views(tests@)),
{
    let mut out: Vec<String> = Vec::new();
    out.push(import_line(sig));
    let mut i: usize = 0;
    while i < tests.len()
        invariant
            i <= tests@.len(),
            out@.len() == i + 1,
            out@[0]@ == import_line_text(sig@),
            forall|k: int|
                1 <= k <= i ==> (#[trigger] out@[k])@ == test_function_text(
                    sig@,
                    tests@[k - 1]@,
                    k as nat,
                ),
        decreases tests@.len() - i,
    {
        out.push(test_function(sig, &tests[i], i + 1));
        i += 1;
    }
    assert(views(out@) =~= test_file_texts(sig@, views(tests@)));
    out
}

/// The test file: its pieces, one below the other.
pub open spec fn tests_text(sig: SignatureView, tests: Seq<TestCaseView>) -> Seq<char> {
    joined(test_file_texts(sig, tests), "\n"@)
}

/// Writes the test file for pytest.
pub fn generate_python_tests(sig: &FunctionSignature, tests: &[TestCase]) -> (r: String)
    ensures
        r@ == tests_text(sig@, views(tests@)),
{
    join(&test_file(sig, tests), "\n")
}

/// The body of the entry point, which runs the stub once on the first example
/// and prints the outcome. It is empty where there is no first example or its
/// input is no record.
pub open spec fn main_body_text(sig: SignatureView, tests: Seq<TestCaseView>) -> Seq<char> {
    match first_inputs(tests) {
        Some(inputs) => if sig.returns_through_parameter() {
            declarations_text(sig.params, inputs, Language::Py, "    "@, false, sig.params.len() as int)
                + output_call_text(sig)
                + output_print_text(sig)
        } else {
            declarations_text(sig.params, inputs, Language::Py, "    "@, false, sig.params.len() as int)
                + return_call_text(sig, inputs)
                + "    print(result)\n"@
        },
        None => Seq::empty(),
    }
}

/// Writes the body of the entry point, which runs the stub once on the first
/// example and prints the outcome. It is empty where there is no first
/// example or its input is no record.
fn main_body(sig: &FunctionSignature, tests: &[TestCase]) -> (r: String)
    ensures
        r@ == main_body_text(sig@, views(tests@)),
{
    match first_test_inputs(tests) {
        Some(inputs) => if is_void_with_mut_ref(sig) {
            let mut out = declarations(sig, inputs, Language::Py, "    ", false);
            out.append(output_call(sig).as_str());
            out.append(output_print(sig).as_str());
            out
        } else {
            let mut out = declarations(sig, inputs, Language::Py, "    ", false);
            out.append(return_call(sig, inputs).as_str());
            out.append("    print(result)\n");
            out
        },
        None => String::new(),
    }
}

/// What the stub's header says of the result.
pub open spec fn result_clause_text(sig: SignatureView) -> Seq<char> {
    if sig.return_type is Void {
        " -> None"@
    } else {
        " -> "@ + type_text(sig.return_type)
    }
}

/// Writes what the stub's header says of the result.
fn result_clause(sig: &FunctionSignature) -> (r: String)
    ensures
        r@ == result_clause_text(sig@),
{
    if matches!(sig.return_type, RustType::Void) {
        String::from_str(" -> None")
    } else {
        let mut out = String::from_str(" -> ");
        out.append(translate_type_py(&sig.return_type).as_str());
        out
    }
}

/// The source file: the stub, whose body does nothing, and the entry point.
pub open spec fn solution_text(sig: SignatureView, tests: Seq<TestCaseView>) -> Seq<char> {
    "def "@
        + sig.name
        + "("@
        + joined(parameter_texts(sig.params), ", "@)
        + ")"@
        + result_clause_text(sig)
        + ":\n    pass\n\n\nif __name__ == \"__main__\":\n"@
        + main_body_text(sig, tests)
}

/// Writes the source file: the stub, whose body does nothing, and the entry
/// point.
fn solution(sig: &FunctionSignature, tests: &[TestCase]) -> (r: String)
    ensures
        r@ == solution_text(sig@, views(tests@)),
{
    let mut out = String::from_str("def ");
    out.append(sig.name.as_str());
    out.append("(");
    out.append(join(&parameters(sig), ", ").as_str());
    out.append(")");
    out.append(result_clause(sig).as_str());
    out.append(":\n    pass\n\n\nif __name__ == \"__main__\":\n");
    out.append(main_body(sig, tests).as_str());
    out
}

/// The setup script: it checks for Python and pip, makes a virtual
/// environment with pytest in it, writes the source file, the test file and
/// the project record, and says how to run and test. `metadata` is the
/// project record as it is to be stored.
pub open spec fn setup_script_text(
    sig: SignatureView,
    tests: Seq<TestCaseView>,
    metadata: Seq<char>,
) -> Seq<char> {
    "#!/bin/bash\nset -e\n\n"@
        + required_commands_text(seq!["python3"@, "pip"@])
        + "\n\npython3 -m venv venv\nsource venv/bin/activate\n\ncat > requirements.txt << 'EOF'\npytest\nEOF\n\npip install -r requirements.txt\n\ncat > solution.py << 'SOLUTION'\n"@
        + solution_text(sig, tests)
        + "\nSOLUTION\n\ncat > test_solution.py << 'TESTS'\n"@
        + tests_text(sig, tests)
        + "\nTESTS\n\ncat > .codle.json << 'METADATA'\n"@
        + metadata
        + "\nMETADATA\n\necho \"Run: source venv/bin/activate && python solution.py\"\necho \"Test: source venv/bin/activate && pytest test_solution.py -v\"\n"@
}

/// Writes the setup script: it checks for Python and pip, makes a virtual
/// environment with pytest in it, writes the source file, the test file and
/// the project record, and says how to run and test. `metadata` is the
/// project record as it is to be stored.
pub fn generate_python(
    challenge: &Challenge,
    sig: &FunctionSignature,
    metadata: &str,
) -> (r: String)
    ensures
        r@ == setup_script_text(sig@, views(challenge.tests@), metadata@),
{
    let tests = challenge.tests.as_slice();
    assert(views((&["python3", "pip"])@) =~= seq!["python3"@, "pip"@]);
    let mut out = String::from_str("#!/bin/bash\nset -e\n\n");
    out.append(require_commands(&["python3", "pip"]).as_str());
    out.append("\n\npython3 -m venv venv\nsource venv/bin/activate\n\ncat > requirements.txt << 'EOF'\npytest\nEOF\n\npip install -r requirements.txt\n\ncat > solution.py << 'SOLUTION'\n");
    out.append(escape_for_heredoc(solution(sig, tests).as_str()).as_str());
    out.append("\nSOLUTION\n\ncat > test_solution.py << 'TESTS'\n");
    out.append(escape_for_heredoc(generate_python_tests(sig, tests).as_str()).as_str());
    out.append("\nTESTS\n\ncat > .codle.json << 'METADATA'\n");
    out.append(metadata);
    out.append("\nMETADATA\n\necho \"Run: source venv/bin/activate && python solution.py\"\necho \"Test: source venv/bin/activate && pytest test_solution.py -v\"\n");
    out
}

} // verus!
