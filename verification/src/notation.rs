//! The signature notation read back: a signature written out as the header
//! of its Rust stub is read as the same signature again.
use vstd::prelude::*;
use crate::lang::rust::{
    header_text, parameter_text, parameter_texts, result_clause_text, type_text,
};
use crate::models::signature::{
    closing_from, lemma_closing_from, matching_paren, param_of, params_from, params_of, ParamView,
    return_type_of, RustType, signature_of, SignatureView, top_level_from, top_level_pieces,
    type_of,
};
use crate::text::{
    has_prefix, has_suffix, is_space, joined, lead_from, lemma_lead_from, lemma_next_index,
    lemma_trail_from, lemma_trimmed_len, next_index, position_of, trail_from, trimmed, trimmed_end,
    trimmed_start,
};

verus! {

/// Whether `c` may stand in a name: any character but white space and the
/// marks that the notation itself is written with.
pub open spec fn is_name_char(c: char) -> bool {
    !is_space(c) && c != '(' && c != ')' && c != ',' && c != ':' && c != '<' && c != '>'
}

/// Whether `s` is made of characters that may stand in a name.
pub open spec fn is_identifier(s: Seq<char>) -> bool {
    forall|i: int| 0 <= i < s.len() ==> is_name_char(#[trigger] s[i])
}

/// Whether the notation has a way to write the type: it has none for the
/// type of nothing.
pub open spec fn writable(ty: RustType) -> bool
    decreases ty,
{
    match ty {
        RustType::Void => false,
        RustType::Vec(item) => writable(*item),
        RustType::MutRef(inner) => writable(*inner),
        _ => true,
    }
}

/// Whether `c` stands nowhere in `s`.
pub open spec fn free_of(s: Seq<char>, c: char) -> bool {
    forall|i: int| 0 <= i < s.len() ==> #[trigger] s[i] != c
}

/// Whether `s` has a first and a last character and neither is white space.
pub open spec fn is_tight(s: Seq<char>) -> bool {
    s.len() > 0 && !is_space(s[0]) && !is_space(s.last())
}

/// By how much the count of open angle brackets changes from index `i` of
/// `s` to its end.
pub open spec fn depth_change(s: Seq<char>, i: int) -> int
    decreases s.len() - i,
{
    if i < 0 || i >= s.len() {
        0
    } else if s[i] == '<' {
        depth_change(s, i + 1) + 1
    } else if s[i] == '>' {
        depth_change(s, i + 1) - 1
    } else {
        depth_change(s, i + 1)
    }
}

proof fn lemma_lead_is(s: Seq<char>, i: int, k: int)
    requires
        0 <= i <= k <= s.len(),
        forall|j: int| i <= j < k ==> is_space(#[trigger] s[j]),
        k < s.len() ==> !is_space(s[k]),
    ensures
        lead_from(s, i) == k,
    decreases k - i,
{
    if i < k {
        lemma_lead_is(s, i + 1, k);
    }
}

proof fn lemma_trail_is(s: Seq<char>, j: int, k: int)
    requires
        0 <= k <= j <= s.len(),
        forall|i: int| k <= i < j ==> is_space(#[trigger] s[i]),
        k > 0 ==> !is_space(s[k - 1]),
    ensures
        trail_from(s, j) == k,
    decreases j - k,
{
    if k < j {
        lemma_trail_is(s, j - 1, k);
    }
}

/// Trimming takes away the white space before a tight text and leaves the
/// text.
proof fn lemma_trimmed_tight(spaces: Seq<char>, s: Seq<char>)
    requires
        forall|j: int| 0 <= j < spaces.len() ==> is_space(#[trigger] spaces[j]),
        is_tight(s),
    ensures
        trimmed(spaces + s) == s,
{
    let all = spaces + s;
    assert(all[spaces.len() as int] == s[0]);
    lemma_lead_is(all, 0, spaces.len() as int);
    assert(trimmed_start(all) =~= s);
    lemma_trail_is(s, s.len() as int, s.len() as int);
    assert(trimmed_end(s) =~= s);
}

/// Trimming leaves a tight text as it is.
proof fn lemma_trimmed_same(s: Seq<char>)
    requires
        s.len() == 0 || is_tight(s),
    ensures
        trimmed(s) == s,
{
    if s.len() == 0 {
        assert(trimmed_start(s) =~= s);
        assert(trimmed_end(s) =~= s);
    } else {
        assert(Seq::<char>::empty() + s =~= s);
        lemma_trimmed_tight(Seq::empty(), s);
    }
}

proof fn lemma_next_index_is(s: Seq<char>, c: char, i: int, k: int)
    requires
        0 <= i <= k <= s.len(),
        forall|j: int| i <= j < k ==> #[trigger] s[j] != c,
        k < s.len() ==> s[k] == c,
    ensures
        next_index(s, c, i) == k,
    decreases k - i,
{
    if i < k {
        lemma_next_index_is(s, c, i + 1, k);
    }
}

proof fn lemma_free_of_concat(a: Seq<char>, b: Seq<char>, c: char)
    ensures
        free_of(a + b, c) <==> free_of(a, c) && free_of(b, c),
{
    let s = a + b;
    if free_of(s, c) {
        assert forall|i: int| 0 <= i < a.len() implies #[trigger] a[i] != c by {
            assert(s[i] == a[i]);
        }
        assert forall|i: int| 0 <= i < b.len() implies #[trigger] b[i] != c by {
            assert(s[a.len() + i] == b[i]);
        }
    }
    if free_of(a, c) && free_of(b, c) {
        assert forall|i: int| 0 <= i < s.len() implies #[trigger] s[i] != c by {
            if i < a.len() {
                assert(s[i] == a[i]);
            } else {
                assert(s[i] == b[i - a.len()]);
            }
        }
    }
}

proof fn lemma_depth_change_concat(a: Seq<char>, b: Seq<char>, i: int)
    requires
        0 <= i <= a.len(),
    ensures
        depth_change(a + b, i) == depth_change(a, i) + depth_change(b, 0),
    decreases a.len() + b.len() - i,
{
    let s = a + b;
    if i < a.len() {
        assert(s[i] == a[i]);
        lemma_depth_change_concat(a, b, i + 1);
    } else {
        lemma_depth_change_shift(a, b, 0);
    }
}

proof fn lemma_depth_change_shift(a: Seq<char>, b: Seq<char>, j: int)
    requires
        0 <= j <= b.len(),
    ensures
        depth_change(a + b, a.len() + j) == depth_change(b, j),
    decreases b.len() - j,
{
    let s = a + b;
    if j < b.len() {
        assert(s[a.len() + j] == b[j]);
        lemma_depth_change_shift(a, b, j + 1);
    }
}

/// A text without angle brackets changes no depth.
proof fn lemma_depth_change_plain(s: Seq<char>, i: int)
    requires
        0 <= i <= s.len(),
        free_of(s, '<'),
        free_of(s, '>'),
    ensures
        depth_change(s, i) == 0,
    decreases s.len() - i,
{
    if i < s.len() {
        lemma_depth_change_plain(s, i + 1);
    }
}

/// What is read behind a prefix is what is read of the rest alone.
proof fn lemma_top_level_shift(pre: Seq<char>, b: Seq<char>, i: int, depth: int, start: int)
    requires
        0 <= start <= i <= b.len(),
    ensures
        top_level_from(pre + b, pre.len() + i, depth, pre.len() + start) == top_level_from(
            b,
            i,
            depth,
            start,
        ),
    decreases b.len() - i,
{
    let s = pre + b;
    let n = pre.len() as int;
    if i < b.len() {
        assert(s[n + i] == b[i]);
        if b[i] == '<' {
            lemma_top_level_shift(pre, b, i + 1, depth + 1, start);
        } else if b[i] == '>' {
            lemma_top_level_shift(pre, b, i + 1, depth - 1, start);
        } else if b[i] == ',' && depth == 0 {
            lemma_top_level_shift(pre, b, i + 1, depth, i + 1);
            assert(s.subrange(n + start, n + i) =~= b.subrange(start, i));
        } else {
            lemma_top_level_shift(pre, b, i + 1, depth, start);
        }
    } else {
        assert(s.subrange(n + start, s.len() as int) =~= b.subrange(start, b.len() as int));
    }
}

/// What holds of a type as it is written: it begins and ends with a
/// character that is no white space, holds no comma and no parenthesis, and
/// closes every angle bracket that it opens.
pub open spec fn is_type_text(t: Seq<char>) -> bool {
    is_tight(t) && free_of(t, ',') && free_of(t, '(') && free_of(t, ')') && depth_change(t, 0) == 0
}

proof fn lemma_plain_word(t: Seq<char>)
    requires
        t.len() > 0,
        is_identifier(t),
    ensures
        is_type_text(t),
        free_of(t, ':'),
        free_of(t, '<'),
        free_of(t, '>'),
{
    assert(is_name_char(t[0]));
    assert(is_name_char(t.last()));
    assert forall|i: int| 0 <= i < t.len() implies #[trigger] t[i] != ',' && t[i] != '(' && t[i]
        != ')' && t[i] != '<' && t[i] != '>' && t[i] != ':' by {
        assert(is_name_char(t[i]));
    }
    lemma_depth_change_plain(t, 0);
}

proof fn lemma_not_prefixed(t: Seq<char>, p: Seq<char>)
    requires
        t.len() > 0,
        p.len() > 0,
        t[0] != p[0],
    ensures
        !has_prefix(t, p),
{
    if has_prefix(t, p) {
        assert(t.take(p.len() as int)[0] == t[0]);
    }
}

/// The shape of a type that is written by its name.
proof fn lemma_named_type_shape(ty: RustType)
    requires
        ty is I32 || ty is F64 || ty is Usize || ty is Bool || ty is String || ty is Char,
    ensures
        is_type_text(type_text(ty)),
        type_text(ty)[0] != '&',
        type_text(ty)[0] != 'V',
{
    reveal_strlit("i32");
    reveal_strlit("f64");
    reveal_strlit("usize");
    reveal_strlit("bool");
    reveal_strlit("String");
    reveal_strlit("char");
    let t = type_text(ty);
    assert(is_identifier(t));
    lemma_plain_word(t);
}

/// A type that is written by its name is read back from the name.
proof fn lemma_named_type_read(ty: RustType)
    requires
        ty is I32 || ty is F64 || ty is Usize || ty is Bool || ty is String || ty is Char,
    ensures
        type_of(type_text(ty)) == Ok::<RustType, Seq<char>>(ty),
{
    let t = type_text(ty);
    lemma_named_type_shape(ty);
    lemma_trimmed_same(t);
    assert(!has_prefix(t, "&mut "@)) by {
        reveal_strlit("&mut ");
        lemma_not_prefixed(t, "&mut "@);
    }
    assert(!has_prefix(t, "Vec<"@)) by {
        reveal_strlit("Vec<");
        lemma_not_prefixed(t, "Vec<"@);
    }
    assert("i32"@ != "f64"@ && "i32"@ != "usize"@ && "i32"@ != "bool"@ && "i32"@ != "String"@
        && "i32"@ != "char"@ && "f64"@ != "usize"@ && "f64"@ != "bool"@ && "f64"@ != "String"@
        && "f64"@ != "char"@ && "usize"@ != "bool"@ && "usize"@ != "String"@ && "usize"@
        != "char"@ && "bool"@ != "String"@ && "bool"@ != "char"@ && "String"@ != "char"@) by {
        reveal_strlit("i32");
        reveal_strlit("f64");
        reveal_strlit("usize");
        reveal_strlit("bool");
        reveal_strlit("String");
        reveal_strlit("char");
        assert("i32"@.len() == 3 && "f64"@.len() == 3 && "usize"@.len() == 5 && "bool"@.len() == 4
            && "String"@.len() == 6 && "char"@.len() == 4);
        assert("i32"@[0] != "f64"@[0]);
        assert("bool"@[0] != "char"@[0]);
    }
}

/// The shape of a list type, given that of the type of its items.
proof fn lemma_list_type_shape(inner: Seq<char>)
    requires
        is_type_text(inner),
    ensures
        is_type_text("Vec<"@ + inner + ">"@),
        ("Vec<"@ + inner + ">"@)[0] == 'V',
{
    reveal_strlit("Vec<");
    reveal_strlit(">");
    let open = "Vec<"@;
    let close = ">"@;
    let t = open + inner + close;
    assert(t[0] == 'V');
    assert(t.last() == '>');
    lemma_free_of_concat(open, inner, ',');
    lemma_free_of_concat(open + inner, close, ',');
    lemma_free_of_concat(open, inner, '(');
    lemma_free_of_concat(open + inner, close, '(');
    lemma_free_of_concat(open, inner, ')');
    lemma_free_of_concat(open + inner, close, ')');
    assert(depth_change(open, 4) == 0);
    assert(depth_change(open, 3) == 1);
    assert(depth_change(open, 2) == 1);
    assert(depth_change(open, 1) == 1);
    assert(depth_change(open, 0) == 1);
    assert(depth_change(close, 1) == 0);
    assert(depth_change(close, 0) == -1);
    lemma_depth_change_concat(open, inner, 0);
    lemma_depth_change_concat(open + inner, close, 0);
}

/// A list type is read back, given that the type of its items is.
proof fn lemma_list_type_read(inner: Seq<char>, item: RustType)
    requires
        is_type_text(inner),
        type_of(inner) == Ok::<RustType, Seq<char>>(item),
    ensures
        type_of("Vec<"@ + inner + ">"@) == Ok::<RustType, Seq<char>>(
            RustType::Vec(Box::new(item)),
        ),
{
    let open = "Vec<"@;
    let close = ">"@;
    let t = open + inner + close;
    lemma_list_type_shape(inner);
    lemma_trimmed_same(t);
    assert(!has_prefix(t, "&mut "@)) by {
        reveal_strlit("&mut ");
        lemma_not_prefixed(t, "&mut "@);
    }
    assert(open.len() == 4 && close.len() == 1) by {
        reveal_strlit("Vec<");
        reveal_strlit(">");
    }
    assert(t.take(4) =~= open);
    let rest = t.skip(4);
    assert(rest =~= inner + close);
    assert(rest.skip(rest.len() - 1) =~= close);
    assert(rest.take(rest.len() - 1) =~= inner);
}

/// The shape of a reference type, given that of the type referred to.
proof fn lemma_reference_type_shape(inner: Seq<char>)
    requires
        is_type_text(inner),
    ensures
        is_type_text("&mut "@ + inner),
{
    reveal_strlit("&mut ");
    let mark = "&mut "@;
    let t = mark + inner;
    assert(t[0] == '&');
    assert(t.last() == inner.last());
    lemma_free_of_concat(mark, inner, ',');
    lemma_free_of_concat(mark, inner, '(');
    lemma_free_of_concat(mark, inner, ')');
    assert(free_of(mark, '<'));
    assert(free_of(mark, '>'));
    lemma_depth_change_plain(mark, 0);
    lemma_depth_change_concat(mark, inner, 0);
}

/// A reference type is read back, given that the type referred to is.
proof fn lemma_reference_type_read(inner: Seq<char>, referent: RustType)
    requires
        is_type_text(inner),
        type_of(inner) == Ok::<RustType, Seq<char>>(referent),
    ensures
        type_of("&mut "@ + inner) == Ok::<RustType, Seq<char>>(
            RustType::MutRef(Box::new(referent)),
        ),
{
    let mark = "&mut "@;
    let t = mark + inner;
    lemma_reference_type_shape(inner);
    lemma_trimmed_same(t);
    assert(mark.len() == 5) by {
        reveal_strlit("&mut ");
    }
    assert(t.take(5) =~= mark);
    assert(t.skip(5) =~= inner);
}

/// A type that the notation can write is read back from what was written.
pub proof fn lemma_type_round_trip(ty: RustType)
    requires
        writable(ty),
    ensures
        is_type_text(type_text(ty)),
        type_of(type_text(ty)) == Ok::<RustType, Seq<char>>(ty),
    decreases ty,
{
    match ty {
        RustType::Vec(item) => {
            lemma_type_round_trip(*item);
            lemma_list_type_shape(type_text(*item));
            lemma_list_type_read(type_text(*item), *item);
        },
        RustType::MutRef(inner) => {
            lemma_type_round_trip(*inner);
            lemma_reference_type_shape(type_text(*inner));
            lemma_reference_type_read(type_text(*inner), *inner);
        },
        _ => {
            lemma_named_type_shape(ty);
            lemma_named_type_read(ty);
        },
    }
}

/// A type is read the same with a space before it.
proof fn lemma_type_after_space(ty: RustType)
    requires
        writable(ty),
    ensures
        type_of(seq![' '] + type_text(ty)) == Ok::<RustType, Seq<char>>(ty),
{
    lemma_type_round_trip(ty);
    let t = type_text(ty);
    lemma_trimmed_tight(seq![' '], t);
    lemma_trimmed_same(t);
}

/// A list written with separators begins with its first item.
proof fn lemma_joined_first(items: Seq<Seq<char>>, sep: Seq<char>)
    requires
        items.len() >= 2,
    ensures
        joined(items, sep) == items[0] + sep + joined(items.skip(1), sep),
    decreases items.len(),
{
    let front = items.drop_last();
    let rest = items.skip(1);
    if items.len() == 2 {
        assert(front.len() == 1);
        assert(rest.len() == 1);
        assert(joined(front, sep) == items[0]);
        assert(joined(rest, sep) == items[1]);
    } else {
        lemma_joined_first(front, sep);
        assert(rest.drop_last() =~= front.skip(1));
        assert(rest.last() == items.last());
        assert(joined(items, sep) =~= items[0] + sep + joined(rest, sep));
    }
}

/// A list of tight texts written with separators is tight.
proof fn lemma_joined_tight(items: Seq<Seq<char>>, sep: Seq<char>)
    requires
        items.len() >= 1,
        forall|j: int| 0 <= j < items.len() ==> is_tight(#[trigger] items[j]),
    ensures
        is_tight(joined(items, sep)),
{
    assert(is_tight(items[0]));
    assert(is_tight(items.last()));
    if items.len() >= 2 {
        lemma_joined_first(items, sep);
        let whole = joined(items, sep);
        assert(whole[0] == items[0][0]);
        assert(whole.last() == items.last().last());
    }
}

/// The pieces that a list of closed texts is split into once it is written
/// with `, ` between them: the first text as it is, behind `lead`, and each
/// other text with the space before it.
pub open spec fn spaced_texts(lead: Seq<char>, texts: Seq<Seq<char>>) -> Seq<Seq<char>> {
    Seq::new(
        texts.len(),
        |j: int|
            if j == 0 {
                lead + texts[0]
            } else {
                seq![' '] + texts[j]
            },
    )
}

proof fn lemma_params_read(params: Seq<ParamView>, pieces: Seq<Seq<char>>, n: int)
    requires
        pieces.len() == params.len(),
        0 <= n <= params.len(),
        forall|j: int|
            0 <= j < params.len() ==> param_of(#[trigger] pieces[j]) == Ok::<
                Option<ParamView>,
                Seq<char>,
            >(Some(params[j])),
    ensures
        params_from(pieces, n) == Ok::<Seq<ParamView>, Seq<char>>(params.take(n)),
    decreases n,
{
    if n > 0 {
        lemma_params_read(params, pieces, n - 1);
        assert(params.take(n - 1).push(params[n - 1]) =~= params.take(n));
    } else {
        assert(params.take(0) =~= Seq::<ParamView>::empty());
    }
}

/// What the header says of the result is read back as the result's type.
proof fn lemma_result_round_trip(sig: SignatureView)
    requires
        sig.return_type is Void || writable(sig.return_type),
    ensures
        return_type_of(result_clause_text(sig)) == Ok::<RustType, Seq<char>>(sig.return_type),
        result_clause_text(sig).len() > 0 ==> !is_space(result_clause_text(sig).last()),
{
    reveal_strlit(" -> ");
    reveal_strlit("->");
    let clause = result_clause_text(sig);
    if sig.return_type is Void {
        lemma_trimmed_same(clause);
    } else {
        lemma_type_round_trip(sig.return_type);
        lemma_type_after_space(sig.return_type);
        let t = type_text(sig.return_type);
        let arrow = "->"@ + seq![' '] + t;
        assert(clause =~= seq![' '] + arrow);
        assert(arrow[0] == '-');
        assert(arrow.last() == t.last());
        assert(clause.last() == t.last());
        lemma_trimmed_tight(seq![' '], arrow);
        assert(arrow.take(2) =~= "->"@);
        assert(arrow.skip(2) =~= seq![' '] + t);
    }
}

/// A type that is read from a text is one that the notation can write.
pub proof fn lemma_read_type_is_writable(s: Seq<char>)
    ensures
        type_of(s) matches Ok(ty) ==> writable(ty),
    decreases s.len(),
{
    reveal_strlit("&mut ");
    reveal_strlit("Vec<");
    reveal_strlit(">");
    lemma_trimmed_len(s);
    let t = trimmed(s);
    if has_prefix(t, "&mut "@) {
        lemma_read_type_is_writable(t.skip("&mut "@.len() as int));
    } else if has_prefix(t, "Vec<"@) {
        let rest = t.skip("Vec<"@.len() as int);
        if has_suffix(rest, ">"@) {
            lemma_read_type_is_writable(rest.take(rest.len() - ">"@.len()));
        }
    }
}

/// Whether `s` is made of white space alone.
pub open spec fn is_blank(s: Seq<char>) -> bool {
    forall|i: int| 0 <= i < s.len() ==> is_space(#[trigger] s[i])
}

/// Whether `s` has no white space at either end.
pub open spec fn is_trimmed(s: Seq<char>) -> bool {
    s.len() == 0 || is_tight(s)
}

/// The count of open parentheses behind `s`, read from index `i` on with
/// `depth` open there; nothing where a `)` in `s` closes the last one.
pub open spec fn paren_state_from(s: Seq<char>, i: int, depth: int) -> Option<int>
    decreases s.len() - i,
{
    if i < 0 || i >= s.len() {
        Some(depth)
    } else if s[i] == '(' {
        paren_state_from(s, i + 1, depth + 1)
    } else if s[i] == ')' {
        if depth == 1 {
            None
        } else {
            paren_state_from(s, i + 1, depth - 1)
        }
    } else {
        paren_state_from(s, i + 1, depth)
    }
}

/// The count of open parentheses behind `s`, with `depth` open before it.
pub open spec fn paren_state(s: Seq<char>, depth: int) -> Option<int> {
    paren_state_from(s, 0, depth)
}

/// The count of open angle brackets behind `s`, read from index `i` on with
/// `depth` open there; nothing where `s` holds a comma outside angle
/// brackets.
pub open spec fn split_state_from(s: Seq<char>, i: int, depth: int) -> Option<int>
    decreases s.len() - i,
{
    if i < 0 || i >= s.len() {
        Some(depth)
    } else if s[i] == '<' {
        split_state_from(s, i + 1, depth + 1)
    } else if s[i] == '>' {
        split_state_from(s, i + 1, depth - 1)
    } else if s[i] == ',' && depth == 0 {
        None
    } else {
        split_state_from(s, i + 1, depth)
    }
}

/// The count of open angle brackets behind `s`, with `depth` open before it.
pub open spec fn split_state(s: Seq<char>, depth: int) -> Option<int> {
    split_state_from(s, 0, depth)
}

proof fn lemma_paren_state_shift(a: Seq<char>, b: Seq<char>, j: int, depth: int)
    requires
        0 <= j <= b.len(),
    ensures
        paren_state_from(a + b, a.len() + j, depth) == paren_state_from(b, j, depth),
    decreases b.len() - j,
{
    let s = a + b;
    if j < b.len() {
        assert(s[a.len() + j] == b[j]);
        if b[j] == '(' {
            lemma_paren_state_shift(a, b, j + 1, depth + 1);
        } else if b[j] == ')' {
            if depth != 1 {
                lemma_paren_state_shift(a, b, j + 1, depth - 1);
            }
        } else {
            lemma_paren_state_shift(a, b, j + 1, depth);
        }
    }
}

proof fn lemma_paren_state_concat(a: Seq<char>, b: Seq<char>, i: int, depth: int)
    requires
        0 <= i <= a.len(),
    ensures
        paren_state_from(a + b, i, depth) == (match paren_state_from(a, i, depth) {
            Some(e) => paren_state(b, e),
            None => None,
        }),
    decreases a.len() - i,
{
    let s = a + b;
    if i < a.len() {
        assert(s[i] == a[i]);
        if a[i] == '(' {
            lemma_paren_state_concat(a, b, i + 1, depth + 1);
        } else if a[i] == ')' {
            if depth != 1 {
                lemma_paren_state_concat(a, b, i + 1, depth - 1);
            }
        } else {
            lemma_paren_state_concat(a, b, i + 1, depth);
        }
    } else {
        lemma_paren_state_shift(a, b, 0, depth);
    }
}

proof fn lemma_paren_state_plain(s: Seq<char>, i: int, depth: int)
    requires
        0 <= i <= s.len(),
        free_of(s, '('),
        free_of(s, ')'),
    ensures
        paren_state_from(s, i, depth) == Some(depth),
    decreases s.len() - i,
{
    if i < s.len() {
        lemma_paren_state_plain(s, i + 1, depth);
    }
}

/// Looking for the closing parenthesis goes through a stretch that closes
/// nothing.
proof fn lemma_closing_through(s: Seq<char>, b: Seq<char>, at: int, j: int, depth: int)
    requires
        0 <= at,
        0 <= j <= b.len(),
        at + b.len() <= s.len(),
        s.subrange(at, at + b.len()) == b,
        paren_state_from(b, j, depth) is Some,
    ensures
        closing_from(s, at + j, depth) == closing_from(
            s,
            at + b.len(),
            paren_state_from(b, j, depth)->0,
        ),
    decreases b.len() - j,
{
    if j < b.len() {
        assert(s[at + j] == s.subrange(at, at + b.len())[j]);
        if b[j] == '(' {
            lemma_closing_through(s, b, at, j + 1, depth + 1);
        } else if b[j] == ')' {
            lemma_closing_through(s, b, at, j + 1, depth - 1);
        } else {
            lemma_closing_through(s, b, at, j + 1, depth);
        }
    }
}

/// What lies before the closing parenthesis closes nothing and leaves one
/// parenthesis open.
proof fn lemma_closing_state(s: Seq<char>, from: int, j: int, depth: int, k: int)
    requires
        0 <= from,
        0 <= j <= k - from,
        k < s.len(),
        closing_from(s, from + j, depth) == Some(k),
    ensures
        paren_state_from(s.subrange(from, k), j, depth) == Some(1int),
    decreases k - from - j,
{
    let x = s.subrange(from, k);
    if j < k - from {
        assert(x[j] == s[from + j]);
        if s[from + j] == '(' {
            lemma_closing_state(s, from, j + 1, depth + 1, k);
        } else if s[from + j] == ')' {
            if depth != 1 {
                lemma_closing_state(s, from, j + 1, depth - 1, k);
            }
        } else {
            lemma_closing_state(s, from, j + 1, depth, k);
        }
    } else {
        lemma_closing_from(s, k + 1, depth);
        lemma_closing_from(s, k + 1, depth + 1);
        lemma_closing_from(s, k + 1, depth - 1);
    }
}

proof fn lemma_split_state_shift(a: Seq<char>, b: Seq<char>, j: int, depth: int)
    requires
        0 <= j <= b.len(),
    ensures
        split_state_from(a + b, a.len() + j, depth) == split_state_from(b, j, depth),
    decreases b.len() - j,
{
    let s = a + b;
    if j < b.len() {
        assert(s[a.len() + j] == b[j]);
        if b[j] == '<' {
            lemma_split_state_shift(a, b, j + 1, depth + 1);
        } else if b[j] == '>' {
            lemma_split_state_shift(a, b, j + 1, depth - 1);
        } else if b[j] == ',' && depth == 0 {
        } else {
            lemma_split_state_shift(a, b, j + 1, depth);
        }
    }
}

proof fn lemma_split_state_concat(a: Seq<char>, b: Seq<char>, i: int, depth: int)
    requires
        0 <= i <= a.len(),
    ensures
        split_state_from(a + b, i, depth) == (match split_state_from(a, i, depth) {
            Some(e) => split_state(b, e),
            None => None,
        }),
    decreases a.len() - i,
{
    let s = a + b;
    if i < a.len() {
        assert(s[i] == a[i]);
        if a[i] == '<' {
            lemma_split_state_concat(a, b, i + 1, depth + 1);
        } else if a[i] == '>' {
            lemma_split_state_concat(a, b, i + 1, depth - 1);
        } else if a[i] == ',' && depth == 0 {
        } else {
            lemma_split_state_concat(a, b, i + 1, depth);
        }
    } else {
        lemma_split_state_shift(a, b, 0, depth);
    }
}

/// A text without commas is read through, and the depth changes as its angle
/// brackets say.
proof fn lemma_split_state_without_commas(s: Seq<char>, i: int, depth: int)
    requires
        0 <= i <= s.len(),
        free_of(s, ','),
    ensures
        split_state_from(s, i, depth) == Some(depth + depth_change(s, i)),
    decreases s.len() - i,
{
    if i < s.len() {
        if s[i] == '<' {
            lemma_split_state_without_commas(s, i + 1, depth + 1);
        } else if s[i] == '>' {
            lemma_split_state_without_commas(s, i + 1, depth - 1);
        } else {
            lemma_split_state_without_commas(s, i + 1, depth);
        }
    }
}

/// Splitting goes through a stretch that holds no comma outside angle
/// brackets.
proof fn lemma_splitting_through(
    s: Seq<char>,
    b: Seq<char>,
    at: int,
    j: int,
    depth: int,
    start: int,
)
    requires
        0 <= at,
        0 <= j <= b.len(),
        at + b.len() <= s.len(),
        s.subrange(at, at + b.len()) == b,
        split_state_from(b, j, depth) is Some,
    ensures
        top_level_from(s, at + j, depth, start) == top_level_from(
            s,
            at + b.len(),
            split_state_from(b, j, depth)->0,
            start,
        ),
    decreases b.len() - j,
{
    if j < b.len() {
        assert(s[at + j] == s.subrange(at, at + b.len())[j]);
        if b[j] == '<' {
            lemma_splitting_through(s, b, at, j + 1, depth + 1, start);
        } else if b[j] == '>' {
            lemma_splitting_through(s, b, at, j + 1, depth - 1, start);
        } else {
            lemma_splitting_through(s, b, at, j + 1, depth, start);
        }
    }
}

/// Whether reading goes through `s` without a change: it holds no
/// parenthesis and no comma, and closes every angle bracket that it opens.
pub open spec fn is_inert(s: Seq<char>) -> bool {
    free_of(s, '(') && free_of(s, ')') && free_of(s, ',') && depth_change(s, 0) == 0
}

proof fn lemma_inert_concat(a: Seq<char>, b: Seq<char>)
    requires
        is_inert(a),
        is_inert(b),
    ensures
        is_inert(a + b),
{
    lemma_free_of_concat(a, b, '(');
    lemma_free_of_concat(a, b, ')');
    lemma_free_of_concat(a, b, ',');
    lemma_depth_change_concat(a, b, 0);
}

proof fn lemma_inert_states(s: Seq<char>, depth: int)
    requires
        is_inert(s),
    ensures
        paren_state(s, depth) == Some(depth),
        split_state(s, depth) == Some(depth),
{
    lemma_paren_state_plain(s, 0, depth);
    lemma_split_state_without_commas(s, 0, depth);
}

proof fn lemma_blank_is_inert(s: Seq<char>)
    requires
        is_blank(s),
    ensures
        is_inert(s),
        free_of(s, ':'),
{
    assert forall|i: int| 0 <= i < s.len() implies #[trigger] s[i] != '(' && s[i] != ')' && s[i]
        != ',' && s[i] != '<' && s[i] != '>' && s[i] != ':' by {
        assert(is_space(s[i]));
    }
    lemma_depth_change_plain(s, 0);
}

/// A text is its trimmed form with white space before and behind it.
proof fn lemma_trimmed_parts(s: Seq<char>) -> (parts: (Seq<char>, Seq<char>))
    ensures
        s == parts.0 + trimmed(s) + parts.1,
        is_blank(parts.0),
        is_blank(parts.1),
        is_trimmed(trimmed(s)),
{
    lemma_lead_from(s, 0);
    let a = lead_from(s, 0);
    let rest = s.skip(a);
    lemma_trail_from(rest, rest.len() as int);
    let b = trail_from(rest, rest.len() as int);
    let left = s.take(a);
    let right = rest.skip(b);
    let t = trimmed(s);
    assert(t == rest.take(b));
    assert(s =~= left + t + right);
    assert forall|i: int| 0 <= i < left.len() implies is_space(#[trigger] left[i]) by {
        assert(left[i] == s[i]);
    }
    assert forall|i: int| 0 <= i < right.len() implies is_space(#[trigger] right[i]) by {
        assert(right[i] == rest[b + i]);
    }
    if b > 0 {
        assert(t[0] == rest[0]);
        assert(rest[0] == s[a]);
        assert(t.last() == rest[b - 1]);
    }
    (left, right)
}

/// What is free of a character stays free of it when it is trimmed.
proof fn lemma_trimmed_free_of(s: Seq<char>, c: char)
    requires
        free_of(s, c),
    ensures
        free_of(trimmed(s), c),
{
    let parts = lemma_trimmed_parts(s);
    lemma_free_of_concat(parts.0 + trimmed(s), parts.1, c);
    lemma_free_of_concat(parts.0, trimmed(s), c);
}

proof fn lemma_inert_list(inner: Seq<char>)
    requires
        is_inert(inner),
    ensures
        is_inert("Vec<"@ + inner + ">"@),
{
    reveal_strlit("Vec<");
    reveal_strlit(">");
    let open = "Vec<"@;
    let close = ">"@;
    lemma_free_of_concat(open, inner, ',');
    lemma_free_of_concat(open + inner, close, ',');
    lemma_free_of_concat(open, inner, '(');
    lemma_free_of_concat(open + inner, close, '(');
    lemma_free_of_concat(open, inner, ')');
    lemma_free_of_concat(open + inner, close, ')');
    assert(depth_change(open, 4) == 0);
    assert(depth_change(open, 3) == 1);
    assert(depth_change(open, 2) == 1);
    assert(depth_change(open, 1) == 1);
    assert(depth_change(open, 0) == 1);
    assert(depth_change(close, 1) == 0);
    assert(depth_change(close, 0) == -1);
    lemma_depth_change_concat(open, inner, 0);
    lemma_depth_change_concat(open + inner, close, 0);
}

proof fn lemma_inert_reference(inner: Seq<char>)
    requires
        is_inert(inner),
    ensures
        is_inert("&mut "@ + inner),
{
    reveal_strlit("&mut ");
    let mark = "&mut "@;
    assert(free_of(mark, '<'));
    assert(free_of(mark, '>'));
    lemma_depth_change_plain(mark, 0);
    assert(is_inert(mark));
    lemma_inert_concat(mark, inner);
}

proof fn lemma_inert_keyword(t: Seq<char>)
    requires
        t == "i32"@ || t == "f64"@ || t == "usize"@ || t == "bool"@ || t == "String"@ || t
            == "char"@,
    ensures
        is_inert(t),
{
    reveal_strlit("i32");
    reveal_strlit("f64");
    reveal_strlit("usize");
    reveal_strlit("bool");
    reveal_strlit("String");
    reveal_strlit("char");
    assert(is_identifier(t));
    lemma_plain_word(t);
}

/// A text that is read as a type holds no parenthesis and no comma, and
/// closes every angle bracket that it opens.
proof fn lemma_read_type_is_inert(s: Seq<char>)
    ensures
        type_of(s) is Ok ==> is_inert(s),
    decreases s.len(),
{
    if type_of(s) is Ok {
        let parts = lemma_trimmed_parts(s);
        let t = trimmed(s);
        lemma_trimmed_len(s);
        lemma_blank_is_inert(parts.0);
        lemma_blank_is_inert(parts.1);
        assert(is_inert(t)) by {
            if has_prefix(t, "&mut "@) {
                reveal_strlit("&mut ");
                let rest = t.skip("&mut "@.len() as int);
                lemma_read_type_is_inert(rest);
                lemma_inert_reference(rest);
                assert(t =~= "&mut "@ + rest);
            } else if has_prefix(t, "Vec<"@) {
                reveal_strlit("Vec<");
                reveal_strlit(">");
                let rest = t.skip("Vec<"@.len() as int);
                let inner = rest.take(rest.len() - ">"@.len());
                lemma_read_type_is_inert(inner);
                lemma_inert_list(inner);
                assert(has_suffix(rest, ">"@));
                assert(rest =~= inner + ">"@);
                assert(t =~= "Vec<"@ + inner + ">"@);
            } else {
                lemma_inert_keyword(t);
            }
        }
        lemma_inert_concat(parts.0, t);
        lemma_inert_concat(parts.0 + t, parts.1);
    }
}

/// Whether `s` holds no parenthesis.
pub open spec fn is_paren_free(s: Seq<char>) -> bool {
    free_of(s, '(') && free_of(s, ')')
}

proof fn lemma_paren_free_before(w: Seq<char>, x: Seq<char>, depth: int)
    requires
        is_paren_free(w),
    ensures
        paren_state(w + x, depth) == paren_state(x, depth),
{
    lemma_paren_state_plain(w, 0, depth);
    lemma_paren_state_concat(w, x, 0, depth);
}

proof fn lemma_paren_free_behind(x: Seq<char>, w: Seq<char>, depth: int)
    requires
        is_paren_free(w),
    ensures
        paren_state(x + w, depth) == paren_state(x, depth),
{
    lemma_paren_state_concat(x, w, 0, depth);
    match paren_state(x, depth) {
        Some(e) => lemma_paren_state_plain(w, 0, e),
        None => {},
    }
}

proof fn lemma_inert_before(w: Seq<char>, x: Seq<char>, depth: int)
    requires
        is_inert(w),
    ensures
        paren_state(w + x, depth) == paren_state(x, depth),
        split_state(w + x, depth) == split_state(x, depth),
{
    lemma_paren_free_before(w, x, depth);
    lemma_inert_states(w, depth);
    lemma_split_state_concat(w, x, 0, depth);
}

proof fn lemma_inert_behind(x: Seq<char>, w: Seq<char>, depth: int)
    requires
        is_inert(w),
    ensures
        paren_state(x + w, depth) == paren_state(x, depth),
        split_state(x + w, depth) == split_state(x, depth),
{
    lemma_paren_free_behind(x, w, depth);
    lemma_split_state_concat(x, w, 0, depth);
    match split_state(x, depth) {
        Some(e) => lemma_inert_states(w, e),
        None => {},
    }
}

/// The pieces that a text is split into give the text back with commas
/// between them; each but the last closes every angle bracket that it opens
/// and holds no comma outside angle brackets, and the last holds no such
/// comma either.
proof fn lemma_pieces_of_split(s: Seq<char>, i: int, depth: int, start: int)
    requires
        0 <= start <= i <= s.len(),
        split_state(s.subrange(start, i), 0) == Some(depth),
    ensures
        ({
            let pieces = top_level_from(s, i, depth, start);
            &&& pieces.len() >= 1
            &&& joined(pieces, seq![',']) == s.skip(start)
            &&& forall|k: int|
                0 <= k < pieces.len() - 1 ==> split_state(#[trigger] pieces[k], 0) == Some(0int)
            &&& split_state(pieces.last(), 0) is Some
        }),
    decreases s.len() - i,
{
    let pieces = top_level_from(s, i, depth, start);
    let sep = seq![','];
    if i >= s.len() {
        assert(s.subrange(start, s.len() as int) =~= s.skip(start));
    } else if s[i] == ',' && depth == 0 {
        let piece = s.subrange(start, i);
        let rest = top_level_from(s, i + 1, depth, i + 1);
        assert(s.subrange(i + 1, i + 1) =~= Seq::<char>::empty());
        lemma_pieces_of_split(s, i + 1, 0, i + 1);
        assert(pieces == seq![piece] + rest);
        assert(pieces.skip(1) =~= rest);
        lemma_joined_first(pieces, sep);
        assert(piece + sep + s.skip(i + 1) =~= s.skip(start));
        assert forall|k: int| 0 <= k < pieces.len() - 1 implies split_state(
            #[trigger] pieces[k],
            0,
        ) == Some(0int) by {
            if k > 0 {
                assert(pieces[k] == rest[k - 1]);
            }
        }
        assert(pieces.last() == rest.last());
    } else {
        let before = s.subrange(start, i);
        let one = seq![s[i]];
        assert(s.subrange(start, i + 1) =~= before + one);
        lemma_split_state_concat(before, one, 0, 0);
        let next = if s[i] == '<' {
            depth + 1
        } else if s[i] == '>' {
            depth - 1
        } else {
            depth
        };
        assert(split_state_from(one, 1, next) == Some(next));
        assert(split_state(one, depth) == Some(next));
        lemma_pieces_of_split(s, i + 1, next, start);
    }
}

/// The count of open parentheses behind the first `n` of `texts`, read one
/// after another with `depth` open before them; nothing where one of them
/// closes the last one.
pub open spec fn texts_paren_state(texts: Seq<Seq<char>>, n: int, depth: int) -> Option<int>
    decreases n,
{
    if n <= 0 || n > texts.len() {
        Some(depth)
    } else {
        match texts_paren_state(texts, n - 1, depth) {
            Some(e) => paren_state(texts[n - 1], e),
            None => None,
        }
    }
}

proof fn lemma_texts_paren_state_prefix(a: Seq<Seq<char>>, b: Seq<Seq<char>>, n: int, depth: int)
    requires
        0 <= n <= a.len(),
        n <= b.len(),
        forall|i: int| 0 <= i < n ==> a[i] == b[i],
    ensures
        texts_paren_state(a, n, depth) == texts_paren_state(b, n, depth),
    decreases n,
{
    if n > 0 {
        lemma_texts_paren_state_prefix(a, b, n - 1, depth);
    }
}

/// Reading texts written with a separator that holds no parenthesis is
/// reading the texts one after another.
proof fn lemma_joined_paren_state(texts: Seq<Seq<char>>, sep: Seq<char>, depth: int)
    requires
        is_paren_free(sep),
    ensures
        paren_state(joined(texts, sep), depth) == texts_paren_state(
            texts,
            texts.len() as int,
            depth,
        ),
    decreases texts.len(),
{
    let n = texts.len() as int;
    if n == 1 {
        assert(texts_paren_state(texts, 0, depth) == Some(depth));
    } else if n >= 2 {
        let front = texts.drop_last();
        lemma_joined_paren_state(front, sep, depth);
        lemma_texts_paren_state_prefix(front, texts, n - 1, depth);
        lemma_paren_free_behind(joined(front, sep), sep, depth);
        lemma_paren_state_concat(joined(front, sep) + sep, texts.last(), 0, depth);
    }
}

/// The names of the parameters, in order.
pub open spec fn param_names(params: Seq<ParamView>) -> Seq<Seq<char>> {
    Seq::new(params.len(), |j: int| params[j].name)
}

/// What holds of a piece that is read as a parameter: the name has no white
/// space at its ends and no colon, the type is one that can be written, and
/// reading goes through the piece as it goes through the name alone. A
/// piece that declares nothing is gone through without a change.
proof fn lemma_read_param(piece: Seq<char>, depth: int)
    ensures
        param_of(piece) matches Ok(Some(p)) ==> ({
            &&& is_trimmed(p.name)
            &&& free_of(p.name, ':')
            &&& writable(p.ty)
            &&& paren_state(piece, depth) == paren_state(p.name, depth)
            &&& split_state(piece, depth) == split_state(p.name, depth)
        }),
        param_of(piece) matches Ok(None) ==> is_inert(piece),
{
    let outer = lemma_trimmed_parts(piece);
    let q = trimmed(piece);
    lemma_blank_is_inert(outer.0);
    lemma_blank_is_inert(outer.1);
    if q.len() == 0 {
        assert(piece =~= outer.0 + outer.1);
        lemma_inert_concat(outer.0, outer.1);
    } else if let Some(colon) = position_of(q, ':') {
        if let Ok(ty) = type_of(q.skip(colon + 1)) {
            lemma_next_index(q, ':', 0);
            let head = q.take(colon);
            let behind = q.skip(colon + 1);
            let name = trimmed(head);
            let inner = lemma_trimmed_parts(head);
            lemma_blank_is_inert(inner.0);
            lemma_blank_is_inert(inner.1);
            assert(free_of(head, ':')) by {
                assert forall|i: int| 0 <= i < head.len() implies #[trigger] head[i] != ':' by {
                    assert(head[i] == q[i]);
                }
            }
            lemma_trimmed_free_of(head, ':');
            lemma_read_type_is_writable(behind);
            lemma_read_type_is_inert(behind);
            let mark = seq![':'];
            assert(is_inert(mark)) by {
                assert(depth_change(mark, 1) == 0);
            }
            assert(q =~= head + mark + behind);
            let before = outer.0 + inner.0;
            let after = inner.1 + mark + behind + outer.1;
            lemma_inert_concat(outer.0, inner.0);
            lemma_inert_concat(inner.1, mark);
            lemma_inert_concat(inner.1 + mark, behind);
            lemma_inert_concat(inner.1 + mark + behind, outer.1);
            assert(piece =~= before + name + after);
            lemma_inert_behind(before + name, after, depth);
            lemma_inert_before(before, name, depth);
        }
    }
}

/// What holds of the parameters that are read from pieces: each as
/// `lemma_read_param` says, and reading goes through the pieces as it goes
/// through the names alone.
proof fn lemma_read_params(pieces: Seq<Seq<char>>, n: int, depth: int)
    requires
        0 <= n <= pieces.len(),
        params_from(pieces, n) is Ok,
    ensures
        ({
            let params = params_from(pieces, n)->Ok_0;
            &&& forall|j: int|
                0 <= j < params.len() ==> is_trimmed((#[trigger] params[j]).name) && free_of(
                    params[j].name,
                    ':',
                ) && writable(params[j].ty)
            &&& texts_paren_state(pieces, n, depth) == texts_paren_state(
                param_names(params),
                params.len() as int,
                depth,
            )
        }),
    decreases n,
{
    if n > 0 {
        lemma_read_params(pieces, n - 1, depth);
        let before = params_from(pieces, n - 1)->Ok_0;
        let params = params_from(pieces, n)->Ok_0;
        let piece = pieces[n - 1];
        let so_far = texts_paren_state(pieces, n - 1, depth);
        match so_far {
            Some(e) => lemma_read_param(piece, e),
            None => lemma_read_param(piece, depth),
        }
        match param_of(piece) {
            Ok(Some(p)) => {
                assert(params == before.push(p));
                assert(param_names(params) =~= param_names(before).push(p.name));
                lemma_texts_paren_state_prefix(
                    param_names(params),
                    param_names(before),
                    before.len() as int,
                    depth,
                );
            },
            _ => {
                if let Some(e) = so_far {
                    lemma_inert_states(piece, e);
                }
            },
        }
    }
}

/// Of the parameters that are read from the pieces of a split, each but the
/// last closes in its name every angle bracket that the name opens, and none
/// has in its name a comma outside angle brackets.
proof fn lemma_read_params_split(pieces: Seq<Seq<char>>, n: int)
    requires
        0 <= n <= pieces.len(),
        params_from(pieces, n) is Ok,
        forall|k: int|
            0 <= k < pieces.len() - 1 ==> split_state(#[trigger] pieces[k], 0) == Some(0int),
        pieces.len() >= 1 ==> split_state(pieces.last(), 0) is Some,
    ensures
        ({
            let params = params_from(pieces, n)->Ok_0;
            forall|j: int|
                0 <= j < params.len() ==> split_state((#[trigger] params[j]).name, 0) is Some && ((j
                    < params.len() - 1 || n < pieces.len()) ==> split_state(params[j].name, 0)
                    == Some(0int))
        }),
    decreases n,
{
    if n > 0 {
        lemma_read_params_split(pieces, n - 1);
        let before = params_from(pieces, n - 1)->Ok_0;
        let params = params_from(pieces, n)->Ok_0;
        let piece = pieces[n - 1];
        lemma_read_param(piece, 0);
        match param_of(piece) {
            Ok(Some(p)) => {
                assert(params == before.push(p));
                if n < pieces.len() {
                    assert(split_state(pieces[n - 1], 0) == Some(0int));
                } else {
                    assert(piece == pieces.last());
                }
                assert forall|j: int| 0 <= j < params.len() implies split_state(
                    (#[trigger] params[j]).name,
                    0,
                ) is Some && ((j < params.len() - 1 || n < pieces.len()) ==> split_state(
                    params[j].name,
                    0,
                ) == Some(0int)) by {
                    if j < before.len() {
                        assert(params[j] == before[j]);
                    }
                }
            },
            _ => {
                assert(params == before);
            },
        }
    }
}

/// Whether the signature is one that its notation gives back.
///
/// Its names have no white space at their ends, the function's name holds
/// no `(` and no parameter's name a `:`. The parentheses in the parameters'
/// names, read in order, close one another. No parameter's name holds a
/// comma outside angle brackets, and each but the last closes the angle
/// brackets that it opens. The types are ones that can be written.
pub open spec fn can_be_read_back(sig: SignatureView) -> bool {
    &&& is_trimmed(sig.name)
    &&& free_of(sig.name, '(')
    &&& forall|j: int|
        0 <= j < sig.params.len() ==> is_trimmed((#[trigger] sig.params[j]).name) && free_of(
            sig.params[j].name,
            ':',
        ) && writable(sig.params[j].ty)
    &&& sig.return_type is Void || writable(sig.return_type)
    &&& texts_paren_state(param_names(sig.params), sig.params.len() as int, 1) == Some(1int)
    &&& forall|j: int|
        0 <= j < sig.params.len() ==> split_state((#[trigger] sig.params[j]).name, 0) is Some && (j
            < sig.params.len() - 1 ==> split_state(sig.params[j].name, 0) == Some(0int))
}

/// Every signature that is read from a notation is one that its own
/// notation gives back.
pub proof fn lemma_read_signature_can_be_read_back(text: Seq<char>)
    requires
        signature_of(text) is Ok,
    ensures
        can_be_read_back(signature_of(text)->Ok_0),
{
    reveal_strlit("->");
    let sig = signature_of(text)->Ok_0;
    let t = trimmed(text);
    let rest = t.skip("fn "@.len() as int);
    let open = position_of(rest, '(')->0;
    let close = matching_paren(rest, open)->0;
    lemma_next_index(rest, '(', 0);
    lemma_closing_from(rest, open, 0);
    // the name
    let head = rest.take(open);
    assert(free_of(head, '(')) by {
        assert forall|i: int| 0 <= i < head.len() implies #[trigger] head[i] != '(' by {
            assert(head[i] == rest[i]);
        }
    }
    lemma_trimmed_free_of(head, '(');
    let name_parts = lemma_trimmed_parts(head);
    // the result
    let after = trimmed(rest.skip(close + 1));
    if has_prefix(after, "->"@) {
        lemma_read_type_is_writable(after.skip("->"@.len() as int));
    }
    // the parameters
    let list = rest.subrange(open + 1, close);
    assert(closing_from(rest, open + 1, 1) == Some(close));
    lemma_closing_state(rest, open + 1, 0, 1, close);
    assert(paren_state(list, 1) == Some(1int));
    let inner = trimmed(list);
    if inner.len() == 0 {
        assert(sig.params =~= Seq::<ParamView>::empty());
    } else {
        let pieces = top_level_pieces(inner);
        let comma = seq![','];
        assert(inner.subrange(0, 0) =~= Seq::<char>::empty());
        lemma_pieces_of_split(inner, 0, 0, 0);
        assert(inner.skip(0) =~= inner);
        let list_parts = lemma_trimmed_parts(list);
        lemma_blank_is_inert(list_parts.0);
        lemma_blank_is_inert(list_parts.1);
        lemma_paren_free_behind(list_parts.0 + inner, list_parts.1, 1);
        lemma_paren_free_before(list_parts.0, inner, 1);
        assert(paren_state(inner, 1) == Some(1int));
        lemma_joined_paren_state(pieces, comma, 1);
        lemma_read_params(pieces, pieces.len() as int, 1);
        lemma_read_params_split(pieces, pieces.len() as int);
    }
}

/// What holds of a parameter as it is written, alone or after white space
/// that set it apart from a comma before it: it is read as the parameter,
/// and reading goes through it as it goes through the name alone.
proof fn lemma_written_param(p: ParamView, lead: Seq<char>, depth: int)
    requires
        is_trimmed(p.name),
        free_of(p.name, ':'),
        writable(p.ty),
        is_blank(lead),
    ensures
        param_of(lead + parameter_text(p)) == Ok::<Option<ParamView>, Seq<char>>(Some(p)),
        is_tight(parameter_text(p)),
        paren_state(parameter_text(p), depth) == paren_state(p.name, depth),
        split_state(parameter_text(p), depth) == split_state(p.name, depth),
{
    reveal_strlit(": ");
    lemma_type_round_trip(p.ty);
    lemma_type_after_space(p.ty);
    let name = p.name;
    let colon = ": "@;
    let t = type_text(p.ty);
    let x = parameter_text(p);
    let n = name.len() as int;
    assert(x == name + colon + t);
    assert(x.len() == n + 2 + t.len());
    assert forall|j: int| 0 <= j < n implies #[trigger] x[j] != ':' by {
        assert(x[j] == name[j]);
    }
    assert(x[n] == ':');
    assert(x[n + 1] == ' ');
    assert(x.last() == t.last());
    if n > 0 {
        assert(x[0] == name[0]);
    }
    assert(is_tight(x));
    // reading goes through what stands behind the name
    let behind = colon + t;
    assert(is_inert(colon)) by {
        assert(free_of(colon, '<'));
        assert(free_of(colon, '>'));
        lemma_depth_change_plain(colon, 0);
    }
    lemma_inert_concat(colon, t);
    assert(x =~= name + behind);
    lemma_inert_behind(name, behind, depth);
    // reading it
    lemma_trimmed_tight(lead, x);
    lemma_next_index_is(x, ':', 0, n);
    assert(position_of(x, ':') == Some(n));
    assert(x.take(n) =~= name);
    lemma_trimmed_same(name);
    assert(x.skip(n + 1) =~= seq![' '] + t);
}

/// A text without a comma outside angle brackets is one piece.
proof fn lemma_one_piece(a: Seq<char>)
    requires
        split_state(a, 0) is Some,
    ensures
        top_level_pieces(a) == seq![a],
{
    assert(a.subrange(0, a.len() as int) =~= a);
    lemma_splitting_through(a, a, 0, 0, 0, 0);
}

/// A text that closes its angle brackets and holds no comma outside them is
/// the first piece where a comma follows it, and the pieces of what follows
/// the comma follow it.
proof fn lemma_piece_then_comma(a: Seq<char>, b: Seq<char>)
    requires
        split_state(a, 0) == Some(0int),
    ensures
        top_level_pieces(a + seq![','] + b) == seq![a] + top_level_pieces(b),
{
    let pre = a + seq![','];
    let s = pre + b;
    let n = a.len() as int;
    assert(s.subrange(0, n) =~= a);
    lemma_splitting_through(s, a, 0, 0, 0, 0);
    assert(s[n] == ',');
    lemma_top_level_shift(pre, b, 0, 0, 0);
}

proof fn lemma_pieces_of_written(lead: Seq<char>, texts: Seq<Seq<char>>)
    requires
        texts.len() >= 1,
        is_blank(lead),
        forall|j: int|
            0 <= j < texts.len() - 1 ==> split_state(#[trigger] texts[j], 0) == Some(0int),
        split_state(texts.last(), 0) is Some,
    ensures
        top_level_pieces(lead + joined(texts, ", "@)) == spaced_texts(lead, texts),
    decreases texts.len(),
{
    reveal_strlit(", ");
    let first = lead + texts[0];
    lemma_blank_is_inert(lead);
    lemma_inert_before(lead, texts[0], 0);
    if texts.len() == 1 {
        assert(texts[0] == texts.last());
        lemma_one_piece(first);
        assert(spaced_texts(lead, texts) =~= seq![first]);
    } else {
        let rest = texts.skip(1);
        let space = seq![' '];
        lemma_joined_first(texts, ", "@);
        let tail = space + joined(rest, ", "@);
        assert(", "@ =~= seq![','] + space);
        assert(lead + joined(texts, ", "@) =~= first + seq![','] + tail);
        assert(split_state(texts[0], 0) == Some(0int));
        lemma_piece_then_comma(first, tail);
        assert forall|j: int| 0 <= j < rest.len() - 1 implies split_state(
            #[trigger] rest[j],
            0,
        ) == Some(0int) by {
            assert(rest[j] == texts[j + 1]);
        }
        assert(rest.last() == texts.last());
        lemma_pieces_of_written(space, rest);
        assert(seq![first] + spaced_texts(space, rest) =~= spaced_texts(lead, texts));
    }
}

/// Reading goes through the written parameters as it goes through their
/// names alone.
proof fn lemma_written_paren_state(params: Seq<ParamView>, n: int, depth: int)
    requires
        0 <= n <= params.len(),
        forall|j: int|
            0 <= j < params.len() ==> is_trimmed((#[trigger] params[j]).name) && free_of(
                params[j].name,
                ':',
            ) && writable(params[j].ty),
    ensures
        texts_paren_state(parameter_texts(params), n, depth) == texts_paren_state(
            param_names(params),
            n,
            depth,
        ),
    decreases n,
{
    if n > 0 {
        lemma_written_paren_state(params, n - 1, depth);
        match texts_paren_state(param_names(params), n - 1, depth) {
            Some(e) => lemma_written_param(params[n - 1], Seq::empty(), e),
            None => {},
        }
    }
}

/// Parameters of a signature that its notation gives back are read back
/// from what was written, and what was written closes every parenthesis
/// that it opens and no other.
proof fn lemma_written_params(sig: SignatureView)
    requires
        can_be_read_back(sig),
    ensures
        params_of(joined(parameter_texts(sig.params), ", "@)) == Ok::<
            Seq<ParamView>,
            Seq<char>,
        >(sig.params),
        paren_state(joined(parameter_texts(sig.params), ", "@), 1) == Some(1int),
{
    reveal_strlit(", ");
    let params = sig.params;
    let texts = parameter_texts(params);
    let whole = joined(texts, ", "@);
    let none = Seq::<char>::empty();
    let n = params.len() as int;
    assert(is_paren_free(", "@));
    lemma_joined_paren_state(texts, ", "@, 1);
    lemma_written_paren_state(params, n, 1);
    if n == 0 {
        lemma_trimmed_same(whole);
        assert(params =~= Seq::<ParamView>::empty());
    } else {
        assert forall|j: int| 0 <= j < texts.len() implies is_tight(#[trigger] texts[j])
            && split_state(texts[j], 0) == split_state(params[j].name, 0) by {
            lemma_written_param(params[j], none, 0);
        }
        lemma_joined_tight(texts, ", "@);
        lemma_trimmed_same(whole);
        assert(none + whole =~= whole);
        assert(split_state(texts.last(), 0) is Some) by {
            assert(texts.last() == texts[n - 1]);
        }
        lemma_pieces_of_written(none, texts);
        let pieces = spaced_texts(none, texts);
        assert forall|j: int| 0 <= j < params.len() implies param_of(#[trigger] pieces[j]) == Ok::<
            Option<ParamView>,
            Seq<char>,
        >(Some(params[j])) by {
            if j == 0 {
                lemma_written_param(params[j], none, 0);
            } else {
                lemma_written_param(params[j], seq![' '], 0);
            }
        }
        lemma_params_read(params, pieces, n);
        assert(params.take(n) =~= params);
    }
}

/// Every signature that its notation gives back is read back from its
/// header as it was: the same name, the same parameters in the same order
/// with the same names and types, and the same type of the result.
pub proof fn lemma_signature_round_trip(sig: SignatureView)
    requires
        can_be_read_back(sig),
    ensures
        signature_of(header_text(sig)) == Ok::<SignatureView, Seq<char>>(sig),
{
    reveal_strlit("fn ");
    reveal_strlit("(");
    reveal_strlit(")");
    let name = sig.name;
    let list = joined(parameter_texts(sig.params), ", "@);
    let clause = result_clause_text(sig);
    let text = header_text(sig);
    lemma_written_params(sig);
    lemma_result_round_trip(sig);
    assert(text == "fn "@ + name + "("@ + list + ")"@ + clause);
    let rest = name + "("@ + list + ")"@ + clause;
    assert(text =~= "fn "@ + rest);
    let open = name.len() as int;
    let close = open + 1 + list.len();
    assert(rest.len() == close + 1 + clause.len());
    // the whole text has no white space at its ends
    assert(text[0] == 'f');
    assert(text.last() == rest.last());
    if clause.len() == 0 {
        assert(rest.last() == ')');
    } else {
        assert(rest.last() == clause.last());
    }
    lemma_trimmed_same(text);
    assert(text.take(3) =~= "fn "@);
    assert(text.skip(3) =~= rest);
    // the name
    assert forall|j: int| 0 <= j < open implies #[trigger] rest[j] != '(' by {
        assert(rest[j] == name[j]);
    }
    assert(rest[open] == '(');
    lemma_next_index_is(rest, '(', 0, open);
    assert(rest.take(open) =~= name);
    lemma_trimmed_same(name);
    // the parentheses
    assert(rest.subrange(open + 1, close) =~= list);
    lemma_closing_through(rest, list, open + 1, 0, 1);
    assert(rest[close] == ')');
    assert(closing_from(rest, close, 1) == Some(close));
    assert(matching_paren(rest, open) == Some(close));
    assert(rest.skip(close + 1) =~= clause);
}

/// Reading a notation, writing the signature out again and reading that
/// gives the signature that was read first.
pub proof fn lemma_notation_round_trip(text: Seq<char>)
    requires
        signature_of(text) is Ok,
    ensures
        signature_of(header_text(signature_of(text)->Ok_0)) == signature_of(text),
{
    lemma_read_signature_can_be_read_back(text);
    lemma_signature_round_trip(signature_of(text)->Ok_0);
}

/// A signature whose names are identifiers and whose types can be written
/// is one that its notation gives back.
pub proof fn lemma_identifiers_can_be_read_back(sig: SignatureView)
    requires
        is_identifier(sig.name),
        forall|j: int|
            0 <= j < sig.params.len() ==> is_identifier((#[trigger] sig.params[j]).name)
                && writable(sig.params[j].ty),
        sig.return_type is Void || writable(sig.return_type),
    ensures
        can_be_read_back(sig),
{
    lemma_identifier_shape(sig.name);
    assert forall|j: int| 0 <= j < sig.params.len() implies is_trimmed(
        (#[trigger] sig.params[j]).name,
    ) && free_of(sig.params[j].name, ':') && split_state(sig.params[j].name, 0) == Some(0int)
        && is_paren_free(sig.params[j].name) by {
        lemma_identifier_shape(sig.params[j].name);
        lemma_inert_states(sig.params[j].name, 0);
    }
    lemma_plain_names(param_names(sig.params), sig.params.len() as int, 1);
}

proof fn lemma_identifier_shape(s: Seq<char>)
    requires
        is_identifier(s),
    ensures
        is_trimmed(s),
        free_of(s, '('),
        free_of(s, ':'),
        is_inert(s),
{
    if s.len() > 0 {
        lemma_plain_word(s);
    } else {
        assert(depth_change(s, 0) == 0);
    }
}

proof fn lemma_plain_names(names: Seq<Seq<char>>, n: int, depth: int)
    requires
        0 <= n <= names.len(),
        forall|j: int| 0 <= j < names.len() ==> is_paren_free(#[trigger] names[j]),
    ensures
        texts_paren_state(names, n, depth) == Some(depth),
    decreases n,
{
    if n > 0 {
        lemma_plain_names(names, n - 1, depth);
        lemma_paren_state_plain(names[n - 1], 0, depth);
    }
}

} // verus!
