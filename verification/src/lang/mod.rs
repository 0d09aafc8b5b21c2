//! Writing types and example values in each language, and the scaffolds
//! built from them.
pub mod c;
pub mod cpp;
pub mod java;
pub mod kotlin;
pub mod python;
pub mod rust;

use vstd::prelude::*;
use vstd::string::*;
use crate::laws::{lemma_real_has_point, lemma_translate_nonempty};
use crate::models::challenge::{Challenge, TestCase, TestCaseView};
use crate::models::difficulty::Difficulty;
use crate::models::language::Language;
use crate::models::project::ProjectMetadata;
use crate::models::signature::{
    FunctionSignature, lemma_first_mut_ref, Param, ParamView, RustType, SignatureView,
};
use crate::models::value::{Entries, entries_view, get, member, Value, ValueView};
use crate::text::{join, joined, push_signed, signed_decimal, views};

verus! {

/// How the type `ty` is written in `lang`.
pub open spec fn translate(ty: RustType, lang: Language) -> Seq<char> {
    match lang {
        Language::Rs => rust::type_text(ty),
        Language::Py => python::type_text(ty),
        Language::Kt => kotlin::type_text(ty),
        Language::Java => java::type_text(ty),
        Language::C => c::type_text(ty),
        Language::Cpp => cpp::type_text(ty),
    }
}

/// Writes the type `ty` in `lang`. What is written depends on the type and
/// the language alone, and is never empty.
pub fn translate_type(ty: &RustType, lang: Language) -> (r: String)
    ensures
        r@ == translate(*ty, lang),
        r@.len() > 0,
{
    proof {
        lemma_translate_nonempty(*ty, lang);
    }
    match lang {
        Language::Rs => rust::translate_type_rs(ty),
        Language::Py => python::translate_type_py(ty),
        Language::Kt => kotlin::translate_type_kt(ty),
        Language::Java => java::translate_type_java(ty),
        Language::C => c::translate_type_c(ty),
        Language::Cpp => cpp::translate_type_cpp(ty),
    }
}

/// A value as an integer literal. A value that is no integer is written as 0.
pub open spec fn integer_text(value: ValueView) -> Seq<char> {
    match value.integer() {
        Some(n) => signed_decimal(n as int),
        None => signed_decimal(0),
    }
}

/// A value as a literal with a decimal point. A number whose fractional part
/// is zero gets the one digit `0` behind the point; a value that is no number
/// is written as `0.0`.
pub open spec fn real_text(value: ValueView) -> Seq<char> {
    match value {
        ValueView::Number(n) => (if n.negative {
            "-"@
        } else {
            Seq::empty()
        }) + n.whole + "."@ + (if n.fraction.len() == 0 {
            "0"@
        } else {
            n.fraction
        }),
        _ => "0.0"@,
    }
}

/// A value as a truth literal of `lang`. A value that is no truth value is
/// written as false.
pub open spec fn truth_text(value: ValueView, lang: Language) -> Seq<char> {
    let b = match value.truth() {
        Some(b) => b,
        None => false,
    };
    match lang {
        Language::Py => if b {
            "True"@
        } else {
            "False"@
        },
        _ => if b {
            "true"@
        } else {
            "false"@
        },
    }
}

/// A value as a text literal of `lang`: the text between double quotes, as it
/// stands. A value that is no text is written as the empty text.
pub open spec fn string_text(value: ValueView, lang: Language) -> Seq<char> {
    let s = match value.string() {
        Some(s) => s,
        None => Seq::empty(),
    };
    match lang {
        Language::Rs => "\""@ + s + "\".to_string()"@,
        _ => "\""@ + s + "\""@,
    }
}

/// The character that stands for a value: the first character of a text, and
/// `?` for an empty text or a value that is no text.
pub open spec fn first_char(value: ValueView) -> char {
    match value.string() {
        Some(s) => if s.len() > 0 {
            s[0]
        } else {
            '?'
        },
        None => '?',
    }
}

/// What stands before and behind a character in a character literal of
/// `lang`. Python has no characters: there a character is written as a text
/// of one character.
pub open spec fn char_quote(lang: Language) -> Seq<char> {
    match lang {
        Language::Py => "\""@,
        _ => "'"@,
    }
}

/// A value as a character literal of `lang`: the first character of the
/// text between quotes, and `?` where there is none.
pub open spec fn char_text(value: ValueView, lang: Language) -> Seq<char> {
    char_quote(lang).push(first_char(value)) + char_quote(lang)
}

/// What opens a list literal of `lang` whose items have the type `item`.
pub open spec fn list_open(item: RustType, lang: Language) -> Seq<char> {
    match lang {
        Language::Rs => "vec!["@,
        Language::Py => "["@,
        Language::Kt => "mutableListOf("@,
        Language::Java => "new "@ + java::type_text(item) + "[] {"@,
        Language::C => "{"@,
        Language::Cpp => "{"@,
    }
}

/// What closes a list literal of `lang`.
pub open spec fn list_close(lang: Language) -> Seq<char> {
    match lang {
        Language::Rs => "]"@,
        Language::Py => "]"@,
        Language::Kt => ")"@,
        Language::Java => "}"@,
        Language::C => "}"@,
        Language::Cpp => "}"@,
    }
}

/// The items of `value` as literals of the type `item`, in order. A value
/// that is no list has none.
pub open spec fn item_texts(value: ValueView, item: RustType, lang: Language) -> Seq<Seq<char>>
    decreases item, 1nat,
{
    match value {
        ValueView::Array(items) => Seq::new(items.len(), |i: int| render(items[i], item, lang)),
        _ => Seq::empty(),
    }
}

/// The literal of `lang` that writes `value` as a value of the type `ty`.
///
/// A list is written as the literals of its items with `, ` between them,
/// inside what opens and closes a list in `lang`. A mutable reference is
/// written as what it refers to. Against the type of nothing, nothing is
/// written.
pub open spec fn render(value: ValueView, ty: RustType, lang: Language) -> Seq<char>
    decreases ty, 0nat,
{
    match ty {
        RustType::I32 => integer_text(value),
        RustType::Usize => integer_text(value),
        RustType::F64 => real_text(value),
        RustType::Bool => truth_text(value, lang),
        RustType::String => string_text(value, lang),
        RustType::Char => char_text(value, lang),
        RustType::Vec(item) => list_open(*item, lang) + joined(
            item_texts(value, *item, lang),
            ", "@,
        ) + list_close(lang),
        RustType::MutRef(inner) => render(value, *inner, lang),
        RustType::Void => Seq::empty(),
    }
}

/// Writes each of `items` as a literal of `lang` of the type `item`.
fn render_items(items: &Vec<Value>, item: &RustType, lang: Language) -> (texts: Vec<String>)
    ensures
        views(texts@) == Seq::new(items@.len(), |i: int| render(items@[i]@, *item, lang)),
    decreases item, 1nat,
{
    let mut texts: Vec<String> = Vec::new();
    let mut i: usize = 0;
    while i < items.len()
        invariant
            i <= items.len(),
            texts@.len() == i,
            forall|k: int|
                0 <= k < i ==> (#[trigger] texts@[k])@ == render(items@[k]@, *item, lang),
        decreases items.len() - i,
    {
        let text = render_value(&items[i], item, lang);
        texts.push(text);
        i += 1;
    }
    assert(views(texts@) =~= Seq::new(items@.len(), |i: int| render(items@[i]@, *item, lang)));
    texts
}

/// Writes `value` as a literal of `lang` of the type `ty`. A value written
/// as a real has a decimal point.
pub fn render_value(value: &Value, ty: &RustType, lang: Language) -> (r: String)
    ensures
        r@ == render(value@, *ty, lang),
        *ty is F64 ==> r@.contains('.'),
    decreases ty, 0nat,
{
    proof {
        if *ty is F64 {
            lemma_real_has_point(value@, lang);
        }
    }
    match ty {
        RustType::I32 | RustType::Usize => {
            let mut out = String::new();
            let n: i64 = match value.as_i64() {
                Some(n) => n,
                None => 0,
            };
            push_signed(&mut out, n);
            assert(out@ =~= signed_decimal(n as int));
            out
        },
        RustType::F64 => match value {
            Value::Number(n) => {
                let mut out = if n.negative {
                    String::from_str("-")
                } else {
                    String::new()
                };
                out.append(n.whole.as_str());
                out.append(".");
                if n.fraction.as_str().is_empty() {
                    out.append("0");
                } else {
                    out.append(n.fraction.as_str());
                }
                out
            },
            _ => String::from_str("0.0"),
        },
        RustType::Bool => {
            let b: bool = match value.as_bool() {
                Some(b) => b,
                None => false,
            };
            match lang {
                Language::Py => if b {
                    String::from_str("True")
                } else {
                    String::from_str("False")
                },
                _ => if b {
                    String::from_str("true")
                } else {
                    String::from_str("false")
                },
            }
        },
        RustType::String => {
            let mut out = String::from_str("\"");
            match value.as_str() {
                Some(s) => out.append(s),
                None => {
                    assert(out@ + Seq::<char>::empty() =~= out@);
                },
            }
            match lang {
                Language::Rs => out.append("\".to_string()"),
                _ => out.append("\""),
            }
            out
        },
        RustType::Char => {
            let quote: &str = match lang {
                Language::Py => "\"",
                _ => "'",
            };
            let c: char = match value.as_str() {
                Some(s) => if s.is_empty() {
                    '?'
                } else {
                    s.get_char(0)
                },
                None => '?',
            };
            let mut out = String::from_str(quote);
            out.push(c);
            out.append(quote);
            out
        },
        RustType::Vec(item) => {
            let mut out = match lang {
                Language::Rs => String::from_str("vec!["),
                Language::Py => String::from_str("["),
                Language::Kt => String::from_str("mutableListOf("),
                Language::Java => {
                    let mut open = String::from_str("new ");
                    open.append(java::translate_type_java(item).as_str());
                    open.append("[] {");
                    open
                },
                Language::C => String::from_str("{"),
                Language::Cpp => String::from_str("{"),
            };
            let texts: Vec<String> = match value.as_array() {
                Some(items) => render_items(items, item, lang),
                None => Vec::new(),
            };
            assert(views(texts@) =~= item_texts(value@, **item, lang));
            out.append(join(&texts, ", ").as_str());
            match lang {
                Language::Rs => out.append("]"),
                Language::Py => out.append("]"),
                Language::Kt => out.append(")"),
                Language::Java => out.append("}"),
                Language::C => out.append("}"),
                Language::Cpp => out.append("}"),
            }
            out
        },
        RustType::MutRef(inner) => render_value(value, inner, lang),
        RustType::Void => String::new(),
    }
}

/// The shell lines that stop a script where the program `command` is not
/// installed.
pub open spec fn command_check_text(command: Seq<char>) -> Seq<char> {
    "if ! command -v "@ + command + " &> /dev/null; then\n    echo \"Error: '"@ + command
        + "' is not installed. Please install it and try again.\"\n    exit 1\nfi"@
}

/// The checks for each of `commands`, one below the other.
pub open spec fn required_commands_text(commands: Seq<Seq<char>>) -> Seq<char> {
    joined(Seq::new(commands.len(), |i: int| command_check_text(commands[i])), "\n"@)
}

/// Writes the shell lines that stop a script where `command` is not installed.
fn command_check(command: &str) -> (r: String)
    ensures
        r@ == command_check_text(command@),
{
    let mut out = String::from_str("if ! command -v ");
    out.append(command);
    out.append(" &> /dev/null; then\n    echo \"Error: '");
    out.append(command);
    out.append("' is not installed. Please install it and try again.\"\n    exit 1\nfi");
    out
}

/// Writes the shell lines that stop a script unless each of `commands` is
/// installed.
pub fn require_commands(commands: &[&str]) -> (r: String)
    ensures
        r@ == required_commands_text(views(commands@)),
{
    let mut checks: Vec<String> = Vec::new();
    let mut i: usize = 0;
    while i < commands.len()
        invariant
            i <= commands.len(),
            checks@.len() == i,
            forall|k: int|
                0 <= k < i ==> (#[trigger] checks@[k])@ == command_check_text(commands@[k]@),
        decreases commands.len() - i,
    {
        checks.push(command_check(commands[i]));
        i += 1;
    }
    assert(views(checks@) =~= Seq::new(
        views(commands@).len(),
        |i: int| command_check_text(views(commands@)[i]),
    ));
    join(&checks, "\n")
}

/// Prepares `content` for a here-document whose delimiter is quoted. The
/// shell takes every character of such a document as it stands, so the
/// content is handed back unchanged.
pub fn escape_for_heredoc(content: &str) -> (r: String)
    ensures
        r@ == content@,
{
    String::from_str(content)
}

/// The index of the first parameter that is a mutable reference, or the
/// number of parameters.
fn first_mut_ref_index(sig: &FunctionSignature) -> (r: usize)
    ensures
        r == sig@.next_mut_ref(0),
        r <= sig.params@.len(),
{
    let mut i: usize = 0;
    while i < sig.params.len() && !matches!(sig.params[i].ty, RustType::MutRef(_))
        invariant
            i <= sig.params@.len(),
            sig@.next_mut_ref(i as int) == sig@.next_mut_ref(0),
        decreases sig.params@.len() - i,
    {
        i += 1;
    }
    i
}

/// The first parameter that is a mutable reference.
pub fn first_mut_ref(sig: &FunctionSignature) -> (r: Option<&Param>)
    ensures
        r is Some <==> sig@.first_mut_ref() is Some,
        r matches Some(p) ==> sig@.first_mut_ref() == Some(p@),
{
    let i = first_mut_ref_index(sig);
    if i < sig.params.len() {
        Some(&sig.params[i])
    } else {
        None
    }
}

/// Whether a parameter is a mutable reference.
pub fn has_mut_ref_params(sig: &FunctionSignature) -> (r: bool)
    ensures
        r == sig@.has_mut_ref(),
{
    proof {
        lemma_first_mut_ref(sig@);
    }
    first_mut_ref_index(sig) < sig.params.len()
}

/// Whether the function hands its result back through a parameter: it returns
/// nothing and takes a mutable reference.
pub fn is_void_with_mut_ref(sig: &FunctionSignature) -> (r: bool)
    ensures
        r == sig@.returns_through_parameter(),
{
    matches!(sig.return_type, RustType::Void) && has_mut_ref_params(sig)
}

/// The type behind a mutable reference; any other type is itself.
pub fn unwrap_mut_ref(ty: &RustType) -> (r: &RustType)
    ensures
        *r == ty.referent(),
{
    match ty {
        RustType::MutRef(inner) => inner,
        other => other,
    }
}

/// What the first mutable reference among the parameters refers to.
pub fn get_first_mut_ref_inner_type(sig: &FunctionSignature) -> (r: Option<&RustType>)
    ensures
        r is Some <==> sig@.first_mut_ref() is Some,
        r matches Some(ty) ==> *ty == sig@.first_mut_ref()->0.ty.referent(),
{
    match first_mut_ref(sig) {
        Some(p) => Some(unwrap_mut_ref(&p.ty)),
        None => None,
    }
}

/// The arguments of the first example, where there is one and its input is a
/// record.
pub open spec fn first_inputs(tests: Seq<TestCaseView>) -> Option<Entries> {
    if tests.len() > 0 {
        tests[0].input.entries()
    } else {
        None
    }
}

/// The arguments of the first of `tests`.
pub fn first_test_inputs(tests: &[TestCase]) -> (r: Option<&Vec<(String, Value)>>)
    ensures
        r is Some <==> first_inputs(views(tests@)) is Some,
        r matches Some(inputs) ==> first_inputs(views(tests@)) == Some(entries_view(inputs@)),
{
    if tests.len() > 0 {
        tests[0].input.as_object()
    } else {
        None
    }
}

/// The arguments of the challenge's first example.
pub fn get_first_test_inputs(challenge: &Challenge) -> (r: Option<&Vec<(String, Value)>>)
    ensures
        r is Some <==> first_inputs(views(challenge.tests@)) is Some,
        r matches Some(inputs) ==> first_inputs(views(challenge.tests@)) == Some(
            entries_view(inputs@),
        ),
{
    first_test_inputs(challenge.tests.as_slice())
}

/// The names of the parameters, in order.
pub open spec fn name_texts(params: Seq<ParamView>) -> Seq<Seq<char>> {
    Seq::new(params.len(), |i: int| params[i].name)
}

/// The names of those of the first `n` parameters that `inputs` has a value
/// for, in order.
pub open spec fn present_name_texts(params: Seq<ParamView>, inputs: Entries, n: int) -> Seq<
    Seq<char>,
>
    decreases n,
{
    if n <= 0 || n > params.len() {
        Seq::empty()
    } else if member(inputs, params[n - 1].name) is Some {
        present_name_texts(params, inputs, n - 1).push(params[n - 1].name)
    } else {
        present_name_texts(params, inputs, n - 1)
    }
}

/// Adds `text` at the end of `texts`.
pub fn push_text(texts: &mut Vec<String>, text: String)
    ensures
        views(final(texts)@) == views(old(texts)@).push(text@),
{
    texts.push(text);
    assert(views(texts@) =~= views(old(texts)@).push(text@));
}

/// The names of the parameters, in order.
pub fn names(sig: &FunctionSignature) -> (r: Vec<String>)
    ensures
        views(r@) == name_texts(sig@.params),
{
    let mut out: Vec<String> = Vec::new();
    let mut i: usize = 0;
    while i < sig.params.len()
        invariant
            i <= sig.params@.len(),
            out@.len() == i,
            forall|k: int| 0 <= k < i ==> (#[trigger] out@[k])@ == sig.params@[k].name@,
        decreases sig.params@.len() - i,
    {
        out.push(sig.params[i].name.clone());
        i += 1;
    }
    assert(views(out@) =~= name_texts(sig@.params));
    out
}

/// The names of the parameters that `inputs` has a value for, in order.
pub fn present_names(sig: &FunctionSignature, inputs: &Vec<(String, Value)>) -> (r: Vec<String>)
    ensures
        views(r@) == present_name_texts(
            sig@.params,
            entries_view(inputs@),
            sig@.params.len() as int,
        ),
{
    let mut out: Vec<String> = Vec::new();
    let mut i: usize = 0;
    assert(views(out@) =~= Seq::<Seq<char>>::empty());
    while i < sig.params.len()
        invariant
            i <= sig.params@.len(),
            views(out@) == present_name_texts(sig@.params, entries_view(inputs@), i as int),
        decreases sig.params@.len() - i,
    {
        if get(inputs, &sig.params[i].name).is_some() {
            push_text(&mut out, sig.params[i].name.clone());
        }
        i += 1;
    }
    out
}

/// What a declaration of the parameter `p` begins with in `lang`. In Rust a
/// variable that the function under test writes to is declared `mut` where
/// `mutable` is set.
pub open spec fn declaration_head_text(p: ParamView, lang: Language, mutable: bool) -> Seq<char> {
    match lang {
        Language::Rs => if mutable && p.ty is MutRef {
            "let mut "@
        } else {
            "let "@
        },
        Language::Py => Seq::empty(),
        Language::Kt => "val "@,
        _ => translate(p.ty.referent(), lang) + " "@,
    }
}

/// What ends a statement in `lang`, with the line.
pub open spec fn statement_end_text(lang: Language) -> Seq<char> {
    match lang {
        Language::Py => "\n"@,
        Language::Kt => "\n"@,
        _ => ";\n"@,
    }
}

/// The line that declares a variable for the parameter `p` and gives it the
/// value that `inputs` has for it; nothing where `inputs` has none.
pub open spec fn declaration_text(
    p: ParamView,
    inputs: Entries,
    lang: Language,
    indent: Seq<char>,
    mutable: bool,
) -> Seq<char> {
    match member(inputs, p.name) {
        Some(value) => indent + declaration_head_text(p, lang, mutable) + p.name + " = "@ + render(
            value,
            p.ty,
            lang,
        ) + statement_end_text(lang),
        None => Seq::empty(),
    }
}

/// The declarations for the first `n` parameters, in order.
pub open spec fn declarations_text(
    params: Seq<ParamView>,
    inputs: Entries,
    lang: Language,
    indent: Seq<char>,
    mutable: bool,
    n: int,
) -> Seq<char>
    decreases n,
{
    if n <= 0 || n > params.len() {
        Seq::empty()
    } else {
        declarations_text(params, inputs, lang, indent, mutable, n - 1) + declaration_text(
            params[n - 1],
            inputs,
            lang,
            indent,
            mutable,
        )
    }
}

/// Writes what a declaration of the parameter `p` begins with.
fn declaration_head(p: &Param, lang: Language, mutable: bool) -> (r: String)
    ensures
        r@ == declaration_head_text(p@, lang, mutable),
{
    match lang {
        Language::Rs => if mutable && matches!(p.ty, RustType::MutRef(_)) {
            String::from_str("let mut ")
        } else {
            String::from_str("let ")
        },
        Language::Py => String::new(),
        Language::Kt => String::from_str("val "),
        _ => {
            let mut out = translate_type(unwrap_mut_ref(&p.ty), lang);
            out.append(" ");
            out
        },
    }
}

/// What ends a statement in `lang`, with the line.
pub fn statement_end(lang: Language) -> (r: &'static str)
    ensures
        r@ == statement_end_text(lang),
{
    match lang {
        Language::Py => "\n",
        Language::Kt => "\n",
        _ => ";\n",
    }
}

/// Writes the line that declares a variable for the parameter `p`.
pub fn declaration(
    p: &Param,
    inputs: &Vec<(String, Value)>,
    lang: Language,
    indent: &str,
    mutable: bool,
) -> (r: String)
    ensures
        r@ == declaration_text(p@, entries_view(inputs@), lang, indent@, mutable),
{
    match get(inputs, &p.name) {
        Some(value) => {
            let mut out = String::from_str(indent);
            out.append(declaration_head(p, lang, mutable).as_str());
            out.append(p.name.as_str());
            out.append(" = ");
            out.append(render_value(value, &p.ty, lang).as_str());
            out.append(statement_end(lang));
            out
        },
        None => String::new(),
    }
}

/// Writes the declarations for the parameters of `sig`, in order.
pub fn declarations(
    sig: &FunctionSignature,
    inputs: &Vec<(String, Value)>,
    lang: Language,
    indent: &str,
    mutable: bool,
) -> (r: String)
    ensures
        r@ == declarations_text(
            sig@.params,
            entries_view(inputs@),
            lang,
            indent@,
            mutable,
            sig@.params.len() as int,
        ),
{
    let mut out = String::new();
    let mut i: usize = 0;
    while i < sig.params.len()
        invariant
            i <= sig.params@.len(),
            out@ == declarations_text(
                sig@.params,
                entries_view(inputs@),
                lang,
                indent@,
                mutable,
                i as int,
            ),
        decreases sig.params@.len() - i,
    {
        out.append(declaration(&sig.params[i], inputs, lang, indent, mutable).as_str());
        i += 1;
    }
    out
}

/// The record that is kept beside the scaffold for `challenge` in `lang`: it
/// names the challenge and the function, and holds the language, the tier
/// that the player has chosen, the challenge's own difficulty, and
/// `initialized_at`, the time at which the scaffold is made.
pub fn scaffold_record(
    challenge: &Challenge,
    sig: &FunctionSignature,
    lang: Language,
    difficulty: Difficulty,
    initialized_at: Option<String>,
) -> (r: ProjectMetadata)
    ensures
        r.challenge_name@ == challenge.name@,
        r.language == lang,
        r.difficulty == difficulty,
        r.function_name@ == sig.name@,
        r.initialized_at == initialized_at,
        r.challenge_difficulty == challenge.difficulty,
{
    ProjectMetadata::new(
        challenge.name.clone(),
        lang,
        difficulty,
        sig.name.clone(),
        initialized_at,
        challenge.difficulty,
    )
}

/// The setup script of the scaffold in `lang`: the shell script that, run in
/// an empty directory, writes the scaffold's files there.
pub open spec fn scaffold_text(
    sig: SignatureView,
    tests: Seq<TestCaseView>,
    lang: Language,
    metadata: Seq<char>,
) -> Seq<char> {
    match lang {
        Language::Rs => rust::setup_script_text(sig, tests, metadata),
        Language::Py => python::setup_script_text(sig, tests, metadata),
        Language::Kt => kotlin::setup_script_text(sig, tests, metadata),
        Language::Java => java::setup_script_text(sig, tests, metadata),
        Language::C => c::setup_script_text(sig, tests, metadata),
        Language::Cpp => cpp::setup_script_text(sig, tests, metadata),
    }
}

/// Writes the setup script of the scaffold for `challenge` in `lang`.
/// `metadata` is the project record as it is to be stored beside the
/// scaffold.
pub fn generate_scaffold(
    challenge: &Challenge,
    sig: &FunctionSignature,
    lang: Language,
    metadata: &str,
) -> (r: String)
    ensures
        r@ == scaffold_text(sig@, views(challenge.tests@), lang, metadata@),
{
    match lang {
        Language::Rs => rust::generate_rust(challenge, sig, metadata),
        Language::Py => python::generate_python(challenge, sig, metadata),
        Language::Kt => kotlin::generate_kotlin(challenge, sig, metadata),
        Language::Java => java::generate_java(challenge, sig, metadata),
        Language::C => c::generate_c(challenge, sig, metadata),
        Language::Cpp => cpp::generate_cpp(challenge, sig, metadata),
    }
}

} // verus!
