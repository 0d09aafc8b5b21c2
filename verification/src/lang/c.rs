//! Scaffolds in C.
use vstd::prelude::*;
use vstd::string::*;
use crate::models::challenge::{Challenge, TestCase, TestCaseView};
use crate::models::language::Language;
use crate::models::signature::{FunctionSignature, Param, ParamView, RustType, SignatureView};
use crate::models::value::{Entries, entries_view, get, items_view, member, Value, ValueView};
use crate::text::{decimal, decimal_string, join, joined, views};
use super::{
    escape_for_heredoc, first_inputs, first_mut_ref, first_test_inputs, has_mut_ref_params,
    is_void_with_mut_ref, push_text, render, render_value, require_commands, required_commands_text,
    unwrap_mut_ref,
};

verus! {

/// How the type `ty` is written in C.
pub open spec fn type_text(ty: RustType) -> Seq<char>
    decreases ty,
{
    match ty {
        RustType::I32 => "int"@,
        RustType::F64 => "double"@,
        RustType::Usize => "size_t"@,
        RustType::Bool => "bool"@,
        RustType::String => "char*"@,
        RustType::Char => "char"@,
        RustType::Vec(inner) => type_text(*inner) + "*"@,
        RustType::MutRef(inner) => type_text(*inner),
        RustType::Void => "void"@,
    }
}

/// Writes the type `ty` in C.
pub fn translate_type_c(ty: &RustType) -> (r: String)
    ensures
        r@ == type_text(*ty),
    decreases ty,
{
    match ty {
        RustType::I32 => String::from_str("int"),
        RustType::F64 => String::from_str("double"),
        RustType::Usize => String::from_str("size_t"),
        RustType::Bool => String::from_str("bool"),
        RustType::String => String::from_str("char*"),
        RustType::Char => String::from_str("char"),
        RustType::Vec(inner) => {
                let mut out = translate_type_c(inner);
                out.append("*");
                out
            },
        RustType::MutRef(inner) => translate_type_c(inner),
        RustType::Void => String::from_str("void"),
    }
}

/// The type that the function returns; a list is returned as a pointer to its
/// first item.
pub open spec fn return_type_text(sig: SignatureView) -> Seq<char> {
    match sig.return_type {
        RustType::Vec(item) => type_text(*item) + "*"@,
        other => type_text(other),
    }
}

/// Writes the type that the function returns.
pub fn c_return_type(sig: &FunctionSignature) -> (r: String)
    ensures
        r@ == return_type_text(sig@),
{
    match &sig.return_type {
        RustType::Vec(item) => {
            let mut out = translate_type_c(item);
            out.append("*");
            out
        },
        other => translate_type_c(other),
    }
}

/// The name of the array that holds the list of the parameter `p`. In a test
/// it is set apart from the parameter's own name.
pub open spec fn array_name_text(p: ParamView, in_test: bool) -> Seq<char> {
    if in_test {
        p.name + "_arr"@
    } else {
        p.name
    }
}

/// Writes the name of the array that holds the list of the parameter `p`. In
/// a test it is set apart from the parameter's own name.
fn array_name(p: &Param, in_test: bool) -> (r: String)
    ensures
        r@ == array_name_text(p@, in_test),
{
    if in_test {
        let mut out = String::from_str(p.name.as_str());
        out.append("_arr");
        out
    } else {
        String::from_str(p.name.as_str())
    }
}

/// The name of the variable that holds the length of the list of the
/// parameter `p`.
pub open spec fn length_name_text(p: ParamView) -> Seq<char> {
    p.name + "_len"@
}

/// Writes the name of the variable that holds the length of the list of the
/// parameter `p`.
fn length_name(p: &Param) -> (r: String)
    ensures
        r@ == length_name_text(p@),
{
    let mut out = String::from_str(p.name.as_str());
    out.append("_len");
    out
}

/// How a list of items of the type `item` is declared as the parameter `p`:
/// as an array.
pub open spec fn array_parameter_text(p: ParamView, item: RustType) -> Seq<char> {
    type_text(item) + " "@ + p.name + "[]"@
}

/// Writes how a list of items of the type `item` is declared as the parameter
/// `p`: as an array.
fn array_parameter(p: &Param, item: &RustType) -> (r: String)
    ensures
        r@ == array_parameter_text(p@, *item),
{
    let mut out = translate_type_c(item);
    out.append(" ");
    out.append(p.name.as_str());
    out.append("[]");
    out
}

/// How the length of the list of the parameter `p` is declared as a
/// parameter.
pub open spec fn length_parameter_text(p: ParamView) -> Seq<char> {
    "int "@ + p.name + "_len"@
}

/// Writes how the length of the list of the parameter `p` is declared as a
/// parameter.
fn length_parameter(p: &Param) -> (r: String)
    ensures
        r@ == length_parameter_text(p@),
{
    let mut out = String::from_str("int ");
    out.append(p.name.as_str());
    out.append("_len");
    out
}

/// How the parameter `p` is declared where it holds no list: the type of what
/// it holds and its name.
pub open spec fn plain_parameter_text(p: ParamView) -> Seq<char> {
    type_text(p.ty.referent()) + " "@ + p.name
}

/// Writes how the parameter `p` is declared where it holds no list: the type
/// of what it holds and its name.
fn plain_parameter(p: &Param) -> (r: String)
    ensures
        r@ == plain_parameter_text(p@),
{
    let mut out = translate_type_c(unwrap_mut_ref(&p.ty));
    out.append(" ");
    out.append(p.name.as_str());
    out
}

/// What the parameter `p` becomes in the stub's header: a list becomes an
/// array and its length, anything else stays one parameter.
pub open spec fn parameter_items(p: ParamView) -> Seq<Seq<char>> {
    match p.ty.referent() {
        RustType::Vec(item) => seq![array_parameter_text(p, *item), length_parameter_text(p)],
        _ => seq![plain_parameter_text(p)],
    }
}

/// What the first `n` parameters become in the stub's header, in order.
pub open spec fn parameter_texts(params: Seq<ParamView>, n: int) -> Seq<Seq<char>>
    decreases n,
{
    if n <= 0 || n > params.len() {
        Seq::empty()
    } else {
        parameter_texts(params, n - 1) + parameter_items(params[n - 1])
    }
}

/// Writes the parameters of the stub: a list is handed over as an array and
/// its length.
pub fn expand_c_params(sig: &FunctionSignature) -> (r: Vec<String>)
    ensures
        views(r@) == parameter_texts(sig@.params, sig@.params.len() as int),
{
    let mut out: Vec<String> = Vec::new();
    let mut i: usize = 0;
    assert(views(out@) =~= Seq::<Seq<char>>::empty());
    while i < sig.params.len()
        invariant
            i <= sig.params@.len(),
            views(out@) == parameter_texts(sig@.params, i as int),
        decreases sig.params@.len() - i,
    {
        let p = &sig.params[i];
        let ghost before = views(out@);
        match unwrap_mut_ref(&p.ty) {
            RustType::Vec(item) => {
                push_text(&mut out, array_parameter(p, item));
                push_text(&mut out, length_parameter(p));
                assert(views(out@) =~= before + parameter_items(p@));
            },
            _ => {
                push_text(&mut out, plain_parameter(p));
                assert(views(out@) =~= before + parameter_items(p@));
            },
        }
        i += 1;
    }
    out
}

/// What is handed to the function for the parameter `p`: for a list the
/// array and its length, for anything else the variable.
pub open spec fn argument_items(p: ParamView, in_test: bool) -> Seq<Seq<char>> {
    if p.ty.referent() is Vec {
        seq![array_name_text(p, in_test), length_name_text(p)]
    } else {
        seq![p.name]
    }
}

/// What is handed to the function for the first `n` parameters. Where
/// `inputs` is given, the parameters that it has no value for are left out.
pub open spec fn argument_texts(
    params: Seq<ParamView>,
    inputs: Option<Entries>,
    in_test: bool,
    n: int,
) -> Seq<Seq<char>>
    decreases n,
{
    if n <= 0 || n > params.len() {
        Seq::empty()
    } else if inputs matches Some(entries) && member(entries, params[n - 1].name) is None {
        argument_texts(params, inputs, in_test, n - 1)
    } else {
        argument_texts(params, inputs, in_test, n - 1) + argument_items(params[n - 1], in_test)
    }
}

/// The record that `inputs` holds, as a mathematical value.
pub open spec fn optional_entries(inputs: Option<&Vec<(String, Value)>>) -> Option<Entries> {
    match inputs {
        Some(entries) => Some(entries_view(entries@)),
        None => None,
    }
}

/// Writes what is handed to the function.
fn arguments(sig: &FunctionSignature, inputs: Option<&Vec<(String, Value)>>, in_test: bool) -> (r:
    Vec<String>)
    ensures
        views(r@) == argument_texts(
            sig@.params,
            optional_entries(inputs),
            in_test,
            sig@.params.len() as int,
        ),
{
    let mut out: Vec<String> = Vec::new();
    let mut i: usize = 0;
    assert(views(out@) =~= Seq::<Seq<char>>::empty());
    while i < sig.params.len()
        invariant
            i <= sig.params@.len(),
            views(out@) == argument_texts(sig@.params, optional_entries(inputs), in_test, i as int),
        decreases sig.params@.len() - i,
    {
        let p = &sig.params[i];
        let present: bool = match inputs {
            Some(entries) => get(entries, &p.name).is_some(),
            None => true,
        };
        if present {
            let ghost before = views(out@);
            if matches!(unwrap_mut_ref(&p.ty), RustType::Vec(_)) {
                push_text(&mut out, array_name(p, in_test));
                push_text(&mut out, length_name(p));
                assert(views(out@) =~= before + argument_items(p@, in_test));
            } else {
                push_text(&mut out, p.name.clone());
                assert(views(out@) =~= before + argument_items(p@, in_test));
            }
        }
        i += 1;
    }
    out
}

/// The statement that lets the stub compile before it is written: it returns
/// a value of the result type that stands for nothing.
pub open spec fn default_return_text(sig: SignatureView) -> Seq<char> {
    match sig.return_type {
        RustType::Void => Seq::empty(),
        RustType::Bool => "    return false;\n"@,
        RustType::I32 => "    return 0;\n"@,
        RustType::Usize => "    return 0;\n"@,
        RustType::F64 => "    return 0.0;\n"@,
        RustType::String => "    return \"\";\n"@,
        RustType::Vec(_) => "    return NULL;\n"@,
        _ => "    return 0;\n"@,
    }
}

/// Writes the statement that lets the stub compile before it is written: it
/// returns a value of the result type that stands for nothing.
fn default_return(sig: &FunctionSignature) -> (r: String)
    ensures
        r@ == default_return_text(sig@),
{
    match &sig.return_type {
        RustType::Void => String::new(),
        RustType::Bool => String::from_str("    return false;\n"),
        RustType::I32 => String::from_str("    return 0;\n"),
        RustType::Usize => String::from_str("    return 0;\n"),
        RustType::F64 => String::from_str("    return 0.0;\n"),
        RustType::String => String::from_str("    return \"\";\n"),
        RustType::Vec(_) => String::from_str("    return NULL;\n"),
        _ => String::from_str("    return 0;\n"),
    }
}

/// The statements that declare the variables for the parameter `p` and give
/// them `value`: for a list an array and its length, for anything else one
/// variable.
pub open spec fn variable_text(
    p: ParamView,
    value: ValueView,
    in_test: bool,
    indent: Seq<char>,
) -> Seq<char> {
    match p.ty.referent() {
        RustType::Vec(item) => indent
            + type_text(*item)
            + " "@
            + array_name_text(p, in_test)
            + "[] = "@
            + render(value, p.ty.referent(), Language::C)
            + ";\n"@
            + indent
            + "int "@
            + length_name_text(p)
            + " = "@
            + decimal(value.item_count())
            + ";\n"@,
        other => indent
            + type_text(other)
            + " "@
            + p.name
            + " = "@
            + render(value, other, Language::C)
            + ";\n"@,
    }
}

/// Writes the statements that declare the variables for the parameter `p` and
/// give them `value`: for a list an array and its length, for anything else
/// one variable.
fn variable(p: &Param, value: &Value, in_test: bool, indent: &str) -> (r: String)
    ensures
        r@ == variable_text(p@, value@, in_test, indent@),
{
    match unwrap_mut_ref(&p.ty) {
        RustType::Vec(item) => {
            let mut out = String::from_str(indent);
            out.append(translate_type_c(item).as_str());
            out.append(" ");
            out.append(array_name(p, in_test).as_str());
            out.append("[] = ");
            out.append(render_value(value, unwrap_mut_ref(&p.ty), Language::C).as_str());
            out.append(";\n");
            out.append(indent);
            out.append("int ");
            out.append(length_name(p).as_str());
            out.append(" = ");
            out.append(decimal_string(value.item_count() as u64).as_str());
            out.append(";\n");
            out
        },
        other => {
            let mut out = String::from_str(indent);
            out.append(translate_type_c(other).as_str());
            out.append(" ");
            out.append(p.name.as_str());
            out.append(" = ");
            out.append(render_value(value, other, Language::C).as_str());
            out.append(";\n");
            out
        },
    }
}

/// The statements that declare the variables for the parameter `p` with the
/// value that `inputs` has for it; nothing where `inputs` has none.
pub open spec fn c_declaration_text(
    p: ParamView,
    inputs: Entries,
    in_test: bool,
    indent: Seq<char>,
) -> Seq<char> {
    match member(inputs, p.name) {
        Some(value) => variable_text(p, value, in_test, indent),
        None => Seq::empty(),
    }
}

/// Writes the statements that declare the variables for the parameter `p`
/// with the value that `inputs` has for it; nothing where `inputs` has none.
fn declaration(p: &Param, inputs: &Vec<(String, Value)>, in_test: bool, indent: &str) -> (r: String)
    ensures
        r@ == c_declaration_text(p@, entries_view(inputs@), in_test, indent@),
{
    match get(inputs, &p.name) {
        Some(value) => variable(p, value, in_test, indent),
        None => String::new(),
    }
}

/// The declarations for the first `n` parameters, in order.
pub open spec fn c_declarations_text(
    params: Seq<ParamView>,
    inputs: Entries,
    in_test: bool,
    indent: Seq<char>,
    n: int,
) -> Seq<char>
    decreases n,
{
    if n <= 0 || n > params.len() {
        Seq::empty()
    } else {
        c_declarations_text(params, inputs, in_test, indent, n - 1) + c_declaration_text(
            params[n - 1],
            inputs,
            in_test,
            indent,
        )
    }
}

/// Writes the declarations for the parameters of `sig`, in order.
fn c_declarations(
    sig: &FunctionSignature,
    inputs: &Vec<(String, Value)>,
    in_test: bool,
    indent: &str,
) -> (r: String)
    ensures
        r@ == c_declarations_text(
            sig@.params,
            entries_view(inputs@),
            in_test,
            indent@,
            sig@.params.len() as int,
        ),
{
    let mut out = String::new();
    let mut i: usize = 0;
    while i < sig.params.len()
        invariant
            i <= sig.params@.len(),
            out@ == c_declarations_text(
                sig@.params,
                entries_view(inputs@),
                in_test,
                indent@,
                i as int,
            ),
        decreases sig.params@.len() - i,
    {
        out.append(declaration(&sig.params[i], inputs, in_test, indent).as_str());
        i += 1;
    }
    out
}

/// The headers that the source file includes: the one for printing, and two
/// more unless the function neither returns anything nor takes a mutable
/// reference.
pub open spec fn includes_text(sig: SignatureView) -> Seq<char> {
    if sig.return_type is Void && !sig.has_mut_ref() {
        "#include <stdio.h>\n"@
    } else {
        "#include <stdio.h>\n#include <stdbool.h>\n#include <stdlib.h>\n"@
    }
}

/// Writes the headers that the source file includes: the one for printing,
/// and two more unless the function neither returns anything nor takes a
/// mutable reference.
fn includes(sig: &FunctionSignature) -> (r: String)
    ensures
        r@ == includes_text(sig@),
{
    if matches!(sig.return_type, RustType::Void) && !has_mut_ref_params(sig) {
        String::from_str("#include <stdio.h>\n")
    } else {
        String::from_str("#include <stdio.h>\n#include <stdbool.h>\n#include <stdlib.h>\n")
    }
}

/// The function's header: the result type, the name and the parameters.
pub open spec fn prototype_text(sig: SignatureView) -> Seq<char> {
    return_type_text(sig)
        + " "@
        + sig.name
        + "("@
        + joined(parameter_texts(sig.params, sig.params.len() as int), ", "@)
        + ")"@
}

/// Writes the function's header: the result type, the name and the
/// parameters.
fn prototype(sig: &FunctionSignature) -> (r: String)
    ensures
        r@ == prototype_text(sig@),
{
    let mut out = c_return_type(sig);
    out.append(" ");
    out.append(sig.name.as_str());
    out.append("(");
    out.append(join(&expand_c_params(sig), ", ").as_str());
    out.append(")");
    out
}

/// The source file that the tests are linked with: the headers and the stub,
/// which returns at once.
pub open spec fn library_text(sig: SignatureView) -> Seq<char> {
    includes_text(sig)
        + "\n"@
        + prototype_text(sig)
        + " {\n"@
        + default_return_text(sig)
        + "}"@
}

/// Writes the source file that the tests are linked with: the headers and the
/// stub, which returns at once.
fn library(sig: &FunctionSignature) -> (r: String)
    ensures
        r@ == library_text(sig@),
{
    let mut out = includes(sig);
    out.append("\n");
    out.append(prototype(sig).as_str());
    out.append(" {\n");
    out.append(default_return(sig).as_str());
    out.append("}");
    out
}

/// The statements that print the array of the first mutable reference item by
/// item; nothing where no parameter is a mutable reference or the first one
/// holds no list.
pub open spec fn output_print_text(sig: SignatureView) -> Seq<char> {
    match sig.first_mut_ref() {
        Some(p) => if p.ty.referent() is Vec {
            "    for (int i = 0; i < "@
                + p.name
                + "_len; i++) printf(\"%d \", "@
                + p.name
                + "[i]);\n    printf(\"\\n\");\n"@
        } else {
            Seq::empty()
        },
        None => Seq::empty(),
    }
}

/// Writes the statements that print the array of the first mutable reference
/// item by item; nothing where no parameter is a mutable reference or the
/// first one holds no list.
fn output_print(sig: &FunctionSignature) -> (r: String)
    ensures
        r@ == output_print_text(sig@),
{
    match first_mut_ref(sig) {
        Some(p) => if matches!(unwrap_mut_ref(&p.ty), RustType::Vec(_)) {
            let mut out = String::from_str("    for (int i = 0; i < ");
            out.append(p.name.as_str());
            out.append("_len; i++) printf(\"%d \", ");
            out.append(p.name.as_str());
            out.append("[i]);\n    printf(\"\\n\");\n");
            out
        } else {
            String::new()
        },
        None => String::new(),
    }
}

/// The body of the entry point, which runs the stub once on the first example
/// and prints the outcome. It is empty where there is no first example or its
/// input is no record.
pub open spec fn main_body_text(sig: SignatureView, tests: Seq<TestCaseView>) -> Seq<char> {
    match first_inputs(tests) {
        Some(inputs) => if sig.returns_through_parameter() {
            c_declarations_text(sig.params, inputs, false, "    "@, sig.params.len() as int)
                + "    "@
                + sig.name
                + "("@
                + joined(argument_texts(sig.params, None, false, sig.params.len() as int), ", "@)
                + ");\n"@
                + output_print_text(sig)
        } else {
            c_declarations_text(sig.params, inputs, false, "    "@, sig.params.len() as int)
                + "    "@
                + return_type_text(sig)
                + " result = "@
                + sig.name
                + "("@
                + joined(argument_texts(sig.params, Some(inputs), false, sig.params.len() as int), ", "@)
                + ");\n    printf(\"%d\\n\", result);\n"@
        },
        None => Seq::empty(),
    }
}

/// Writes the body of the entry point, which runs the stub once on the first
/// example and prints the outcome. It is empty where there is no first
/// example or its input is no record.
fn main_body(sig: &FunctionSignature, tests: &[TestCase]) -> (r: String)
    ensures
        r@ == main_body_text(sig@, views(tests@)),
{
    match first_test_inputs(tests) {
        Some(inputs) => if is_void_with_mut_ref(sig) {
            let mut out = c_declarations(sig, inputs, false, "    ");
            out.append("    ");
            out.append(sig.name.as_str());
            out.append("(");
            out.append(join(&arguments(sig, None, false), ", ").as_str());
            out.append(");\n");
            out.append(output_print(sig).as_str());
            out
        } else {
            let mut out = c_declarations(sig, inputs, false, "    ");
            out.append("    ");
            out.append(c_return_type(sig).as_str());
            out.append(" result = ");
            out.append(sig.name.as_str());
            out.append("(");
            out.append(join(&arguments(sig, Some(inputs), false), ", ").as_str());
            out.append(");\n    printf(\"%d\\n\", result);\n");
            out
        },
        None => String::new(),
    }
}

/// The source file: the stub and the entry point.
pub open spec fn solution_text(sig: SignatureView, tests: Seq<TestCaseView>) -> Seq<char> {
    library_text(sig)
        + "\n\nint main() {\n"@
        + main_body_text(sig, tests)
        + "    return 0;\n}"@
}

/// Writes the source file: the stub and the entry point.
fn solution(sig: &FunctionSignature, tests: &[TestCase]) -> (r: String)
    ensures
        r@ == solution_text(sig@, views(tests@)),
{
    let mut out = library(sig);
    out.append("\n\nint main() {\n");
    out.append(main_body(sig, tests).as_str());
    out.append("    return 0;\n}");
    out
}

/// The statement that fails the test unless the item of `target` at `index`
/// is `value`, written as a value of the type `item`.
pub open spec fn element_check_text(
    target: Seq<char>,
    value: ValueView,
    item: RustType,
    index: nat,
) -> Seq<char> {
    "        if ("@
        + target
        + "["@
        + decimal(index)
        + "] != "@
        + render(value, item, Language::C)
        + ") test_passed = 0;\n"@
}

/// Writes the statement that fails the test unless the item of `target` at
/// `index` is `value`, written as a value of the type `item`.
fn element_check(target: &str, value: &Value, item: &RustType, index: usize) -> (r: String)
    ensures
        r@ == element_check_text(target@, value@, *item, index as nat),
{
    let mut out = String::from_str("        if (");
    out.append(target);
    out.append("[");
    out.append(decimal_string(index as u64).as_str());
    out.append("] != ");
    out.append(render_value(value, item, Language::C).as_str());
    out.append(") test_passed = 0;\n");
    out
}

/// The checks of the first `n` items of `target` against `items`, in order.
pub open spec fn element_checks_text(
    target: Seq<char>,
    items: Seq<ValueView>,
    item: RustType,
    n: int,
) -> Seq<char>
    decreases n,
{
    if n <= 0 || n > items.len() {
        Seq::empty()
    } else {
        element_checks_text(target, items, item, n - 1) + element_check_text(
            target,
            items[n - 1],
            item,
            (n - 1) as nat,
        )
    }
}

/// Writes the checks of the items of `target` against `items`.
fn element_checks(target: &str, items: &Vec<Value>, item: &RustType) -> (r: String)
    ensures
        r@ == element_checks_text(target@, items_view(items@), *item, items@.len() as int),
{
    let mut out = String::new();
    let mut i: usize = 0;
    while i < items.len()
        invariant
            i <= items@.len(),
            out@ == element_checks_text(target@, items_view(items@), *item, i as int),
        decreases items@.len() - i,
    {
        out.append(element_check(target, &items[i], item, i).as_str());
        i += 1;
    }
    out
}

/// The statements that compare the array `target` item by item with the
/// expected list, report the test as passed or failed under its number, and
/// count it; nothing where the expected value is no list.
pub open spec fn list_verdict_text(
    target: Seq<char>,
    expected: ValueView,
    item: RustType,
    number: nat,
) -> Seq<char> {
    match expected.items() {
        Some(items) => "        int test_passed = 1;\n"@
            + element_checks_text(target, items, item, items.len() as int)
            + "        if (test_passed) { printf(\"Test "@
            + decimal(number)
            + ": PASS\\n\"); passed++; }\n        else { printf(\"Test "@
            + decimal(number)
            + ": FAIL\\n\"); failed++; }\n"@,
        None => Seq::empty(),
    }
}

/// Writes the statements that compare the array `target` item by item with
/// the expected list, report the test as passed or failed under its number,
/// and count it; nothing where the expected value is no list.
fn list_verdict(target: &str, expected: &Value, item: &RustType, number: usize) -> (r: String)
    ensures
        r@ == list_verdict_text(target@, expected@, *item, number as nat),
{
    match expected.as_array() {
        Some(items) => {
            let mut out = String::from_str("        int test_passed = 1;\n");
            out.append(element_checks(target, items, item).as_str());
            out.append("        if (test_passed) { printf(\"Test ");
            out.append(decimal_string(number as u64).as_str());
            out.append(": PASS\\n\"); passed++; }\n        else { printf(\"Test ");
            out.append(decimal_string(number as u64).as_str());
            out.append(": FAIL\\n\"); failed++; }\n");
            out
        },
        None => String::new(),
    }
}

/// The statements that compare what the function returned with the expected
/// value, report the test as passed or failed under its number, and count it.
pub open spec fn value_verdict_text(wanted: Seq<char>, number: nat) -> Seq<char> {
    "        if (result == "@
        + wanted
        + ") { printf(\"Test "@
        + decimal(number)
        + ": PASS\\n\"); passed++; }\n        else { printf(\"Test "@
        + decimal(number)
        + ": FAIL (expected "@
        + wanted
        + ", got %d)\\n\", result); failed++; }\n"@
}

/// Writes the statements that compare what the function returned with the
/// expected value, report the test as passed or failed under its number, and
/// count it.
fn value_verdict(wanted: &str, number: usize) -> (r: String)
    ensures
        r@ == value_verdict_text(wanted@, number as nat),
{
    let mut out = String::from_str("        if (result == ");
    out.append(wanted);
    out.append(") { printf(\"Test ");
    out.append(decimal_string(number as u64).as_str());
    out.append(": PASS\\n\"); passed++; }\n        else { printf(\"Test ");
    out.append(decimal_string(number as u64).as_str());
    out.append(": FAIL (expected ");
    out.append(wanted);
    out.append(", got %d)\\n\", result); failed++; }\n");
    out
}

/// The statements that compare the variable `subject` with the expected
/// value, report the test as passed or failed under its number, and count it.
pub open spec fn plain_verdict_text(
    subject: Seq<char>,
    wanted: Seq<char>,
    number: nat,
) -> Seq<char> {
    "        if ("@
        + subject
        + " == "@
        + wanted
        + ") { printf(\"Test "@
        + decimal(number)
        + ": PASS\\n\"); passed++; }\n        else { printf(\"Test "@
        + decimal(number)
        + ": FAIL\\n\"); failed++; }\n"@
}

/// Writes the statements that compare the variable `subject` with the
/// expected value, report the test as passed or failed under its number, and
/// count it.
fn plain_verdict(subject: &str, wanted: &str, number: usize) -> (r: String)
    ensures
        r@ == plain_verdict_text(subject@, wanted@, number as nat),
{
    let mut out = String::from_str("        if (");
    out.append(subject);
    out.append(" == ");
    out.append(wanted);
    out.append(") { printf(\"Test ");
    out.append(decimal_string(number as u64).as_str());
    out.append(": PASS\\n\"); passed++; }\n        else { printf(\"Test ");
    out.append(decimal_string(number as u64).as_str());
    out.append(": FAIL\\n\"); failed++; }\n");
    out
}

/// The verdict on the variable of the first mutable reference: where it holds
/// a list, the items of its array are compared with the items of the expected
/// list, and where it holds anything else, the variable with the expected
/// value. There is none where no parameter is a mutable reference.
pub open spec fn output_verdict_text(
    sig: SignatureView,
    expected: ValueView,
    number: nat,
) -> Seq<char> {
    match sig.first_mut_ref() {
        Some(p) => match p.ty.referent() {
            RustType::Vec(item) => list_verdict_text(array_name_text(p, true), expected, *item, number),
            other => plain_verdict_text(p.name, render(expected, other, Language::C), number),
        },
        None => Seq::empty(),
    }
}

/// Writes the verdict on the variable of the first mutable reference: where
/// it holds a list, the items of its array are compared with the items of the
/// expected list, and where it holds anything else, the variable with the
/// expected value. There is none where no parameter is a mutable reference.
fn output_verdict(sig: &FunctionSignature, expected: &Value, number: usize) -> (r: String)
    ensures
        r@ == output_verdict_text(sig@, expected@, number as nat),
{
    match first_mut_ref(sig) {
        Some(p) => match unwrap_mut_ref(&p.ty) {
            RustType::Vec(item) => list_verdict(array_name(p, true).as_str(), expected, item, number),
            other => plain_verdict(
                p.name.as_str(),
                render_value(expected, other, Language::C).as_str(),
                number,
            ),
        },
        None => String::new(),
    }
}

/// The statements that hold the expected list as an array literal, compare
/// the returned array with it item by item, report the test as passed or
/// failed under its number, and count it; nothing where the expected value is
/// no list. `list` is the type of the list and `item` that of its items.
pub open spec fn literal_verdict_text(
    expected: ValueView,
    list: RustType,
    item: RustType,
    number: nat,
) -> Seq<char> {
    match expected.items() {
        Some(items) => "        "@
            + type_text(item)
            + " expected[] = "@
            + render(expected, list, Language::C)
            + ";\n        int test_passed = 1;\n        for (int i = 0; i < "@
            + decimal(items.len())
            + "; i++) if (result[i] != expected[i]) test_passed = 0;\n        if (test_passed) { printf(\"Test "@
            + decimal(number)
            + ": PASS\\n\"); passed++; }\n        else { printf(\"Test "@
            + decimal(number)
            + ": FAIL\\n\"); failed++; }\n"@,
        None => Seq::empty(),
    }
}

/// Writes the statements that hold the expected list as an array literal,
/// compare the returned array with it item by item, report the test as passed
/// or failed under its number, and count it; nothing where the expected value
/// is no list. `list` is the type of the list and `item` that of its items.
fn literal_verdict(expected: &Value, list: &RustType, item: &RustType, number: usize) -> (r: String)
    ensures
        r@ == literal_verdict_text(expected@, *list, *item, number as nat),
{
    match expected.as_array() {
        Some(items) => {
            let mut out = String::from_str("        ");
            out.append(translate_type_c(item).as_str());
            out.append(" expected[] = ");
            out.append(render_value(expected, list, Language::C).as_str());
            out.append(";\n        int test_passed = 1;\n        for (int i = 0; i < ");
            out.append(decimal_string(items.len() as u64).as_str());
            out.append("; i++) if (result[i] != expected[i]) test_passed = 0;\n        if (test_passed) { printf(\"Test ");
            out.append(decimal_string(number as u64).as_str());
            out.append(": PASS\\n\"); passed++; }\n        else { printf(\"Test ");
            out.append(decimal_string(number as u64).as_str());
            out.append(": FAIL\\n\"); failed++; }\n");
            out
        },
        None => String::new(),
    }
}

/// The call that keeps what the function returned, and the verdict on it:
/// against the expected list as an array literal where a list is returned.
pub open spec fn return_verdict_text(
    sig: SignatureView,
    inputs: Entries,
    expected: ValueView,
    number: nat,
) -> Seq<char> {
    match sig.return_type {
        RustType::Vec(item) => "        "@
            + type_text(*item)
            + "* result = "@
            + sig.name
            + "("@
            + joined(argument_texts(sig.params, Some(inputs), true, sig.params.len() as int), ", "@)
            + ");\n"@
            + literal_verdict_text(expected, sig.return_type, *item, number),
        other => "        "@
            + type_text(other)
            + " result = "@
            + sig.name
            + "("@
            + joined(argument_texts(sig.params, Some(inputs), true, sig.params.len() as int), ", "@)
            + ");\n"@
            + value_verdict_text(render(expected, other, Language::C), number),
    }
}

/// Writes the call that keeps what the function returned, and the verdict on
/// it: against the expected list as an array literal where a list is
/// returned.
fn return_verdict(
    sig: &FunctionSignature,
    inputs: &Vec<(String, Value)>,
    expected: &Value,
    number: usize,
) -> (r: String)
    ensures
        r@ == return_verdict_text(sig@, entries_view(inputs@), expected@, number as nat),
{
    match &sig.return_type {
        RustType::Vec(item) => {
            let mut out = String::from_str("        ");
            out.append(translate_type_c(item).as_str());
            out.append("* result = ");
            out.append(sig.name.as_str());
            out.append("(");
            out.append(join(&arguments(sig, Some(inputs), true), ", ").as_str());
            out.append(");\n");
            out.append(literal_verdict(expected, &sig.return_type, item, number).as_str());
            out
        },
        other => {
            let mut out = String::from_str("        ");
            out.append(translate_type_c(other).as_str());
            out.append(" result = ");
            out.append(sig.name.as_str());
            out.append("(");
            out.append(join(&arguments(sig, Some(inputs), true), ", ").as_str());
            out.append(");\n");
            let part = value_verdict(render_value(expected, other, Language::C).as_str(), number);
            out.append(part.as_str());
            out
        },
    }
}

/// The body of a test of a function that hands its result back through a
/// parameter: the declarations, the call, and the verdict on the first
/// mutable reference.
pub open spec fn output_test_body_text(
    sig: SignatureView,
    inputs: Entries,
    expected: ValueView,
    number: nat,
) -> Seq<char> {
    c_declarations_text(sig.params, inputs, true, "        "@, sig.params.len() as int)
        + "        "@
        + sig.name
        + "("@
        + joined(argument_texts(sig.params, Some(inputs), true, sig.params.len() as int), ", "@)
        + ");\n"@
        + output_verdict_text(sig, expected, number)
}

/// Writes the body of a test of a function that hands its result back through
/// a parameter: the declarations, the call, and the verdict on the first
/// mutable reference.
fn output_test_body(
    sig: &FunctionSignature,
    inputs: &Vec<(String, Value)>,
    expected: &Value,
    number: usize,
) -> (r: String)
    ensures
        r@ == output_test_body_text(sig@, entries_view(inputs@), expected@, number as nat),
{
    let mut out = c_declarations(sig, inputs, true, "        ");
    out.append("        ");
    out.append(sig.name.as_str());
    out.append("(");
    out.append(join(&arguments(sig, Some(inputs), true), ", ").as_str());
    out.append(");\n");
    out.append(output_verdict(sig, expected, number).as_str());
    out
}

/// The body of a test of a function that returns its result: the
/// declarations, the call, and the verdict on what was returned.
pub open spec fn return_test_body_text(
    sig: SignatureView,
    inputs: Entries,
    expected: ValueView,
    number: nat,
) -> Seq<char> {
    c_declarations_text(sig.params, inputs, true, "        "@, sig.params.len() as int)
        + return_verdict_text(sig, inputs, expected, number)
}

/// Writes the body of a test of a function that returns its result: the
/// declarations, the call, and the verdict on what was returned.
fn return_test_body(
    sig: &FunctionSignature,
    inputs: &Vec<(String, Value)>,
    expected: &Value,
    number: usize,
) -> (r: String)
    ensures
        r@ == return_test_body_text(sig@, entries_view(inputs@), expected@, number as nat),
{
    let mut out = c_declarations(sig, inputs, true, "        ");
    out.append(return_verdict(sig, inputs, expected, number).as_str());
    out
}

/// The body of the test for one example. A function that returns nothing and
/// takes a mutable reference is tested on what it wrote to that parameter,
/// any other function on what it returned.
pub open spec fn test_body_text(
    sig: SignatureView,
    inputs: Entries,
    expected: ValueView,
    number: nat,
) -> Seq<char> {
    if sig.returns_through_parameter() {
        output_test_body_text(sig, inputs, expected, number)
    } else {
        return_test_body_text(sig, inputs, expected, number)
    }
}

/// Writes the body of the test for one example. A function that returns
/// nothing and takes a mutable reference is tested on what it wrote to that
/// parameter, any other function on what it returned.
fn test_body(
    sig: &FunctionSignature,
    inputs: &Vec<(String, Value)>,
    expected: &Value,
    number: usize,
) -> (r: String)
    ensures
        r@ == test_body_text(sig@, entries_view(inputs@), expected@, number as nat),
{
    if is_void_with_mut_ref(sig) {
        output_test_body(sig, inputs, expected, number)
    } else {
        return_test_body(sig, inputs, expected, number)
    }
}

/// The block that tests one example, under the example's number. An example
/// whose input is no record gives no block.
pub open spec fn test_block_text(sig: SignatureView, test: TestCaseView, number: nat) -> Seq<char> {
    match test.input.entries() {
        Some(inputs) => "    // Test "@
            + decimal(number)
            + "\n    {\n"@
            + test_body_text(sig, inputs, test.expected, number)
            + "    }\n\n"@,
        None => Seq::empty(),
    }
}

/// Writes the block that tests one example, under the example's number. An
/// example whose input is no record gives no block.
fn test_block(sig: &FunctionSignature, test: &TestCase, number: usize) -> (r: String)
    ensures
        r@ == test_block_text(sig@, test@, number as nat),
{
    match test.input.as_object() {
        Some(inputs) => {
            let mut out = String::from_str("    // Test ");
            out.append(decimal_string(number as u64).as_str());
            out.append("\n    {\n");
            out.append(test_body(sig, inputs, &test.expected, number).as_str());
            out.append("    }\n\n");
            out
        },
        None => String::new(),
    }
}

/// The blocks that test the examples, in order. Of the examples, the first
/// `n` are taken.
pub open spec fn test_blocks_text(
    sig: SignatureView,
    tests: Seq<TestCaseView>,
    n: int,
) -> Seq<char>
    decreases n,
{
    if n <= 0 || n > tests.len() {
        Seq::empty()
    } else {
        test_blocks_text(sig, tests, n - 1) + test_block_text(sig, tests[n - 1], n as nat)
    }
}

/// Writes the blocks that test the examples, in order.
fn test_blocks(sig: &FunctionSignature, tests: &[TestCase]) -> (r: String)
    ensures
        r@ == test_blocks_text(sig@, views(tests@), tests@.len() as int),
{
    let mut out = String::new();
    let mut i: usize = 0;
    while i < tests.len()
        invariant
            i <= tests@.len(),
            out@ == test_blocks_text(sig@, views(tests@), i as int),
        decreases tests@.len() - i,
    {
        out.append(test_block(sig, &tests[i], i + 1).as_str());
        i += 1;
    }
    out
}

/// The test program: it declares the function, runs one block for each
/// example, prints how many tests passed, and fails where one did not.
pub open spec fn tests_text(sig: SignatureView, tests: Seq<TestCaseView>) -> Seq<char> {
    "#include <stdio.h>\n#include <stdbool.h>\n#include <stdlib.h>\n#include <string.h>\n\n// Forward declaration - implemented in solution.c\n"@
        + prototype_text(sig)
        + ";\n\nint main() {\n    int passed = 0, failed = 0;\n\n"@
        + test_blocks_text(sig, tests, tests.len() as int)
        + "    printf(\"\\n%d/%d tests passed\\n\", passed, passed + failed);\n    return failed > 0 ? 1 : 0;\n}\n"@
}

/// Writes the test program: it declares the function, runs one block for each
/// example, prints how many tests passed, and fails where one did not.
pub fn generate_c_tests(sig: &FunctionSignature, tests: &[TestCase]) -> (r: String)
    ensures
        r@ == tests_text(sig@, views(tests@)),
{
    let mut out = String::from_str("#include <stdio.h>\n#include <stdbool.h>\n#include <stdlib.h>\n#include <string.h>\n\n// Forward declaration - implemented in solution.c\n");
    out.append(prototype(sig).as_str());
    out.append(";\n\nint main() {\n    int passed = 0, failed = 0;\n\n");
    out.append(test_blocks(sig, tests).as_str());
    out.append("    printf(\"\\n%d/%d tests passed\\n\", passed, passed + failed);\n    return failed > 0 ? 1 : 0;\n}\n");
    out
}

/// The makefile: how to build and run the solution and the tests.
pub open spec fn makefile_text() -> Seq<char> {
    "CC = gcc\nCFLAGS = -Wall -Wextra -std=c11 -g\nTARGET = solution\nTEST_TARGET = test_runner\nSRC = solution.c\nTEST_SRC = test_solution.c\n\nall: $(TARGET)\n\n$(TARGET): $(SRC)\n\t$(CC) $(CFLAGS) -o $(TARGET) $(SRC)\n\ntest: $(TEST_TARGET)\n\t./$(TEST_TARGET)\n\n$(TEST_TARGET): $(TEST_SRC) solution_lib.c\n\t$(CC) $(CFLAGS) -o $(TEST_TARGET) solution_lib.c $(TEST_SRC)\n\nrun: $(TARGET)\n\t./$(TARGET)\n\nclean:\n\trm -f $(TARGET) $(TEST_TARGET)\n\n.PHONY: all run clean test"@
}

/// The makefile.
fn makefile() -> (r: &'static str)
    ensures
        r@ == makefile_text(),
{
    "CC = gcc\nCFLAGS = -Wall -Wextra -std=c11 -g\nTARGET = solution\nTEST_TARGET = test_runner\nSRC = solution.c\nTEST_SRC = test_solution.c\n\nall: $(TARGET)\n\n$(TARGET): $(SRC)\n\t$(CC) $(CFLAGS) -o $(TARGET) $(SRC)\n\ntest: $(TEST_TARGET)\n\t./$(TEST_TARGET)\n\n$(TEST_TARGET): $(TEST_SRC) solution_lib.c\n\t$(CC) $(CFLAGS) -o $(TEST_TARGET) solution_lib.c $(TEST_SRC)\n\nrun: $(TARGET)\n\t./$(TARGET)\n\nclean:\n\trm -f $(TARGET) $(TEST_TARGET)\n\n.PHONY: all run clean test"
}

/// The setup script: it checks for the compiler and make, writes the
/// makefile, the source file, the library, the test program and the project
/// record, and says how to run and test. `metadata` is the project record as
/// it is to be stored.
pub open spec fn setup_script_text(
    sig: SignatureView,
    tests: Seq<TestCaseView>,
    metadata: Seq<char>,
) -> Seq<char> {
    "#!/bin/bash\nset -e\n\n"@
        + required_commands_text(seq!["gcc"@, "make"@])
        + "\n\ncat > Makefile << 'MAKEFILE'\n"@
        + makefile_text()
        + "\nMAKEFILE\n\ncat > solution.c << 'SOLUTION'\n"@
        + solution_text(sig, tests)
        + "\nSOLUTION\n\ncat > solution_lib.c << 'SOLUTION_LIB'\n"@
        + library_text(sig)
        + "\nSOLUTION_LIB\n\ncat > test_solution.c << 'TESTS'\n"@
        + tests_text(sig, tests)
        + "\nTESTS\n\ncat > .codle.json << 'METADATA'\n"@
        + metadata
        + "\nMETADATA\n\necho \"Run: make && ./solution\"\necho \"Test: make test\"\n"@
}

/// Writes the setup script: it checks for the compiler and make, writes the
/// makefile, the source file, the library, the test program and the project
/// record, and says how to run and test. `metadata` is the project record as
/// it is to be stored.
pub fn generate_c(challenge: &Challenge, sig: &FunctionSignature, metadata: &str) -> (r: String)
    ensures
        r@ == setup_script_text(sig@, views(challenge.tests@), metadata@),
{
    let tests = challenge.tests.as_slice();
    assert(views((&["gcc", "make"])@) =~= seq!["gcc"@, "make"@]);
    let mut out = String::from_str("#!/bin/bash\nset -e\n\n");
    out.append(require_commands(&["gcc", "make"]).as_str());
    out.append("\n\ncat > Makefile << 'MAKEFILE'\n");
    out.append(makefile());
    out.append("\nMAKEFILE\n\ncat > solution.c << 'SOLUTION'\n");
    out.append(escape_for_heredoc(solution(sig, tests).as_str()).as_str());
    out.append("\nSOLUTION\n\ncat > solution_lib.c << 'SOLUTION_LIB'\n");
    out.append(escape_for_heredoc(library(sig).as_str()).as_str());
    out.append("\nSOLUTION_LIB\n\ncat > test_solution.c << 'TESTS'\n");
    out.append(escape_for_heredoc(generate_c_tests(sig, tests).as_str()).as_str());
    out.append("\nTESTS\n\ncat > .codle.json << 'METADATA'\n");
    out.append(metadata);
    out.append("\nMETADATA\n\necho \"Run: make && ./solution\"\necho \"Test: make test\"\n");
    out
}

} // verus!
