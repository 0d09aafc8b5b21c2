//! What holds of the library as a whole: of every type, every value, every
//! signature and every transcript.
use vstd::prelude::*;
use crate::lang::{
    c, cpp, item_texts, java, kotlin, list_close, list_open, python, render, rust, translate,
};
use crate::models::challenge::TestCaseView;
use crate::models::language::Language;
use crate::models::signature::{RustType, SignatureView};
use crate::models::value::{Entries, ValueView};
use crate::testrun::{
    Counts, counts_of, gradle_marker_counts, marker_counts, next_showing, pytest_summary, reports,
    shows, TestSummary,
};
use crate::text::{has_suffix, joined, lines_of, occurs_in, trimmed};

verus! {

/// Every type is written with at least one character, in every language.
pub proof fn lemma_translate_nonempty(ty: RustType, lang: Language)
    ensures
        translate(ty, lang).len() > 0,
    decreases ty,
{
    reveal_strlit("i32");
    reveal_strlit("f64");
    reveal_strlit("usize");
    reveal_strlit("bool");
    reveal_strlit("String");
    reveal_strlit("char");
    reveal_strlit("Vec<");
    reveal_strlit("&mut ");
    reveal_strlit("()");
    reveal_strlit("int");
    reveal_strlit("float");
    reveal_strlit("str");
    reveal_strlit("list[");
    reveal_strlit("None");
    reveal_strlit("Int");
    reveal_strlit("Double");
    reveal_strlit("Boolean");
    reveal_strlit("Char");
    reveal_strlit("MutableList<");
    reveal_strlit("Unit");
    reveal_strlit("double");
    reveal_strlit("boolean");
    reveal_strlit("[]");
    reveal_strlit("void");
    reveal_strlit("size_t");
    reveal_strlit("char*");
    reveal_strlit("*");
    reveal_strlit("std::string");
    reveal_strlit("std::vector<");
    reveal_strlit("&");
    match ty {
        RustType::Vec(inner) => lemma_translate_nonempty(*inner, lang),
        RustType::MutRef(inner) => lemma_translate_nonempty(*inner, lang),
        _ => {},
    }
}

/// A list without items as it is written in `lang`, for items of the type
/// `item`.
pub open spec fn empty_list_text(item: RustType, lang: Language) -> Seq<char> {
    match lang {
        Language::Rs => "vec![]"@,
        Language::Py => "[]"@,
        Language::Kt => "mutableListOf()"@,
        Language::Java => "new "@ + java::type_text(item) + "[] {}"@,
        Language::C => "{}"@,
        Language::Cpp => "{}"@,
    }
}

/// A list is written with one literal for each of its items, in their order:
/// as many literals as the list has items, each the item written as a value
/// of the item type, with `, ` between each two and inside what opens and
/// closes a list.
pub proof fn lemma_list_rendering(items: Seq<ValueView>, item: RustType, lang: Language)
    ensures
        item_texts(ValueView::Array(items), item, lang).len() == items.len(),
        forall|i: int|
            0 <= i < items.len() ==> #[trigger] item_texts(ValueView::Array(items), item, lang)[i]
                == render(items[i], item, lang),
        render(ValueView::Array(items), RustType::Vec(Box::new(item)), lang) == list_open(item, lang)
            + joined(item_texts(ValueView::Array(items), item, lang), ", "@) + list_close(lang),
{
}

/// A list without items, and any value that is no list, is written as the
/// empty list of the language.
pub proof fn lemma_empty_list_rendering(value: ValueView, item: RustType, lang: Language)
    requires
        value.item_count() == 0,
    ensures
        render(value, RustType::Vec(Box::new(item)), lang) == empty_list_text(item, lang),
{
    reveal_strlit("vec![");
    reveal_strlit("]");
    reveal_strlit("vec![]");
    reveal_strlit("[");
    reveal_strlit("[]");
    reveal_strlit("mutableListOf(");
    reveal_strlit(")");
    reveal_strlit("mutableListOf()");
    reveal_strlit("[] {");
    reveal_strlit("}");
    reveal_strlit("[] {}");
    reveal_strlit("{");
    reveal_strlit("{}");
    let texts = item_texts(value, item, lang);
    assert(texts.len() == 0);
    assert(joined(texts, ", "@) =~= Seq::<char>::empty());
    assert(render(value, RustType::Vec(Box::new(item)), lang) =~= empty_list_text(item, lang));
}

/// How a number is written as a real depends on its reading as a real alone:
/// two numbers with the same sign, the same digits before the point and the
/// same digits behind it are written alike, whether or not they were given
/// as integers.
pub proof fn lemma_real_rendering(a: ValueView, b: ValueView, lang: Language)
    requires
        a is Number,
        b is Number,
        a->Number_0.negative == b->Number_0.negative,
        a->Number_0.whole == b->Number_0.whole,
        a->Number_0.fraction == b->Number_0.fraction,
    ensures
        render(a, RustType::F64, lang) == render(b, RustType::F64, lang),
{
}

/// Every value written as a real has a decimal point.
pub proof fn lemma_real_has_point(value: ValueView, lang: Language)
    ensures
        render(value, RustType::F64, lang).contains('.'),
{
    reveal_strlit(".");
    reveal_strlit("0.0");
    let text = render(value, RustType::F64, lang);
    match value {
        ValueView::Number(n) => {
            let sign = if n.negative {
                "-"@
            } else {
                Seq::<char>::empty()
            };
            let at = sign.len() + n.whole.len();
            assert(text[at as int] == '.');
        },
        _ => {
            assert(text[1] == '.');
        },
    }
}

/// The body of the test for an example with the arguments `inputs`, as the
/// test file of `lang` holds it.
pub open spec fn test_body(
    sig: SignatureView,
    inputs: Entries,
    expected: ValueView,
    number: nat,
    lang: Language,
) -> Seq<char> {
    let test = TestCaseView { input: ValueView::Object(inputs), expected };
    match lang {
        Language::Rs => rust::test_body_text(sig, test),
        Language::Py => python::test_body_text(sig, test),
        Language::Kt => kotlin::test_body_text(sig, test),
        Language::Java => java::test_body_text(sig, test),
        Language::C => c::test_body_text(sig, inputs, expected, number),
        Language::Cpp => cpp::test_body_text(sig, inputs, expected, number),
    }
}

/// The test body that holds the first mutable reference against the
/// expected value.
pub open spec fn output_test_body(
    sig: SignatureView,
    inputs: Entries,
    expected: ValueView,
    number: nat,
    lang: Language,
) -> Seq<char> {
    match lang {
        Language::Rs => rust::output_test_body_text(sig, inputs, expected, "        "@),
        Language::Py => python::output_test_body_text(sig, inputs, expected),
        Language::Kt => kotlin::output_test_body_text(sig, inputs, expected),
        Language::Java => java::output_test_body_text(sig, inputs, expected),
        Language::C => c::output_test_body_text(sig, inputs, expected, number),
        Language::Cpp => cpp::output_test_body_text(sig, inputs, expected, number),
    }
}

/// The test body that holds what the function returned against the expected
/// value.
pub open spec fn return_test_body(
    sig: SignatureView,
    inputs: Entries,
    expected: ValueView,
    number: nat,
    lang: Language,
) -> Seq<char> {
    match lang {
        Language::Rs => rust::return_test_body_text(sig, inputs, expected, "        "@),
        Language::Py => python::return_test_body_text(sig, inputs, expected),
        Language::Kt => kotlin::return_test_body_text(sig, inputs, expected),
        Language::Java => java::return_test_body_text(sig, inputs, expected),
        Language::C => c::return_test_body_text(sig, inputs, expected, number),
        Language::Cpp => cpp::return_test_body_text(sig, inputs, expected, number),
    }
}

/// In every language, a function that returns nothing and takes at least one
/// mutable reference is tested on what it wrote to its first mutable
/// reference, and a function of any other shape on what it returned.
pub proof fn lemma_assertion_path(
    sig: SignatureView,
    inputs: Entries,
    expected: ValueView,
    number: nat,
    lang: Language,
)
    ensures
        sig.return_type is Void && (exists|i: int|
            0 <= i < sig.params.len() && (#[trigger] sig.params[i]).ty is MutRef) ==> test_body(
            sig,
            inputs,
            expected,
            number,
            lang,
        ) == output_test_body(sig, inputs, expected, number, lang),
        !(sig.return_type is Void && (exists|i: int|
            0 <= i < sig.params.len() && (#[trigger] sig.params[i]).ty is MutRef)) ==> test_body(
            sig,
            inputs,
            expected,
            number,
            lang,
        ) == return_test_body(sig, inputs, expected, number, lang),
{
}

/// Whether `line` is one that the summary of the test runner of `lang` is
/// looked for in.
pub open spec fn is_summary_line(line: Seq<char>, lang: Language) -> bool {
    match lang {
        Language::Rs => shows(line, "test result:"@, true),
        Language::Py => occurs_in(line, "passed"@) || occurs_in(line, "failed"@),
        Language::Kt => shows(line, "tests completed"@, false),
        Language::Java => shows(line, "tests completed"@, false),
        Language::C => shows(line, "tests passed"@, false),
        Language::Cpp => shows(line, "tests passed"@, false),
    }
}

/// Whether `line` reports a single test of the test runner of `lang`.
pub open spec fn is_marker_line(line: Seq<char>, lang: Language) -> bool {
    match lang {
        Language::Rs => occurs_in(line, " ... ok"@) || occurs_in(line, " ... FAILED"@),
        Language::Py => occurs_in(line, "PASSED"@) || occurs_in(line, "FAILED"@),
        Language::Kt => occurs_in(trimmed(line), "()"@) && (has_suffix(trimmed(line), "PASSED"@)
            || has_suffix(trimmed(line), "FAILED"@)),
        Language::Java => occurs_in(trimmed(line), "()"@) && (has_suffix(trimmed(line), "PASSED"@)
            || has_suffix(trimmed(line), "FAILED"@)),
        Language::C => occurs_in(line, ": PASS"@) || occurs_in(line, ": FAIL"@),
        Language::Cpp => occurs_in(line, ": PASS"@) || occurs_in(line, ": FAIL"@),
    }
}

proof fn lemma_none_showing(lines: Seq<Seq<char>>, mark: Seq<char>, at_start: bool, i: int)
    requires
        0 <= i <= lines.len(),
        forall|j: int| i <= j < lines.len() ==> !shows(#[trigger] lines[j], mark, at_start),
    ensures
        next_showing(lines, mark, at_start, i) == lines.len(),
    decreases lines.len() - i,
{
    if i < lines.len() {
        lemma_none_showing(lines, mark, at_start, i + 1);
    }
}

proof fn lemma_no_markers(lines: Seq<Seq<char>>, pass: Seq<char>, fail: Seq<char>, n: int)
    requires
        0 <= n <= lines.len(),
        forall|j: int|
            0 <= j < n ==> !occurs_in(#[trigger] lines[j], pass) && !occurs_in(lines[j], fail),
    ensures
        marker_counts(lines, pass, fail, n) == Counts::none(),
    decreases n,
{
    if n > 0 {
        lemma_no_markers(lines, pass, fail, n - 1);
    }
}

proof fn lemma_no_gradle_markers(lines: Seq<Seq<char>>, n: int)
    requires
        0 <= n <= lines.len(),
        forall|j: int| 0 <= j < n ==> !is_marker_line(#[trigger] lines[j], Language::Kt),
    ensures
        gradle_marker_counts(lines, n) == Counts::none(),
    decreases n,
{
    if n > 0 {
        lemma_no_gradle_markers(lines, n - 1);
    }
}

proof fn lemma_no_pytest_summary(lines: Seq<Seq<char>>, n: int)
    requires
        0 <= n <= lines.len(),
        forall|j: int| 0 <= j < n ==> !is_summary_line(#[trigger] lines[j], Language::Py),
    ensures
        pytest_summary(lines, n) == Counts::none(),
    decreases n,
{
    if n > 0 {
        lemma_no_pytest_summary(lines, n - 1);
    }
}

/// A transcript without a line that a summary is looked for in and without
/// a line that reports a single test gives no tests: none passed and none
/// failed.
pub proof fn lemma_no_signal(text: Seq<char>, lang: Language)
    requires
        forall|i: int|
            0 <= i < lines_of(text).len() ==> !is_summary_line(#[trigger] lines_of(text)[i], lang)
                && !is_marker_line(lines_of(text)[i], lang),
    ensures
        counts_of(lang, text) == Counts::none(),
{
    let all = lines_of(text);
    let n = all.len() as int;
    match lang {
        Language::Rs => {
            lemma_none_showing(all, "test result:"@, true, 0);
            lemma_no_markers(all, " ... ok"@, " ... FAILED"@, n);
        },
        Language::Py => {
            lemma_no_pytest_summary(all, n);
            lemma_no_markers(all, "PASSED"@, "FAILED"@, n);
        },
        Language::Kt => {
            lemma_none_showing(all, "tests completed"@, false, 0);
            lemma_no_gradle_markers(all, n);
        },
        Language::Java => {
            lemma_none_showing(all, "tests completed"@, false, 0);
            assert forall|j: int| 0 <= j < n implies !is_marker_line(
                #[trigger] all[j],
                Language::Kt,
            ) by {
                assert(!is_marker_line(all[j], Language::Java));
            }
            lemma_no_gradle_markers(all, n);
        },
        Language::C => {
            lemma_none_showing(all, "tests passed"@, false, 0);
            lemma_no_markers(all, ": PASS"@, ": FAIL"@, n);
        },
        Language::Cpp => {
            lemma_none_showing(all, "tests passed"@, false, 0);
            lemma_no_markers(all, ": PASS"@, ": FAIL"@, n);
        },
    }
}

/// For a transcript without any such line, what a reader reports is no
/// error but a summary of no tests at all.
pub proof fn lemma_no_signal_is_reported(
    text: Seq<char>,
    lang: Language,
    r: Result<TestSummary, String>,
)
    requires
        forall|i: int|
            0 <= i < lines_of(text).len() ==> !is_summary_line(#[trigger] lines_of(text)[i], lang)
                && !is_marker_line(lines_of(text)[i], lang),
        reports(r, counts_of(lang, text), text),
    ensures
        r matches Ok(s) && s.passed == 0 && s.failed == 0 && s.total == 0 && s.output@ == text,
{
    lemma_no_signal(text, lang);
}

} // verus!
