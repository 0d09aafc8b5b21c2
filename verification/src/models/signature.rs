//! Function signatures and the one-line notation that they are written in.
use vstd::prelude::*;
use vstd::string::*;
use vstd::slice::slice_subrange;
use crate::text::{
    ends_with, find, from_chars, has_prefix, has_suffix, lemma_next_index, lemma_trimmed_len,
    position_of, push_chars, same, starts_with, to_chars, trim, trimmed, views,
};

verus! {

/// The type of a parameter or of a result.
#[derive(Debug, PartialEq)]
pub enum RustType {
    I32,
    F64,
    Usize,
    Bool,
    String,
    Char,
    Vec(Box<RustType>),
    MutRef(Box<RustType>),
    Void,
}

/// A parameter: its name, used as it stands as an identifier, and its type.
#[derive(Debug, Clone)]
pub struct Param {
    pub name: String,
    pub ty: RustType,
}

/// A function's name, its parameters in order, and the type of its result.
#[derive(Debug, Clone)]
pub struct FunctionSignature {
    pub name: String,
    pub params: Vec<Param>,
    pub return_type: RustType,
}

/// A parameter as a mathematical value.
pub struct ParamView {
    pub name: Seq<char>,
    pub ty: RustType,
}

/// A signature as a mathematical value.
pub struct SignatureView {
    pub name: Seq<char>,
    pub params: Seq<ParamView>,
    pub return_type: RustType,
}

impl View for Param {
    type V = ParamView;

    open spec fn view(&self) -> ParamView {
        ParamView { name: self.name@, ty: self.ty }
    }
}

impl View for FunctionSignature {
    type V = SignatureView;

    open spec fn view(&self) -> SignatureView {
        SignatureView {
            name: self.name@,
            params: Seq::new(self.params@.len(), |i: int| self.params@[i]@),
            return_type: self.return_type,
        }
    }
}

impl Clone for RustType {
    /// A copy of the type.
    fn clone(&self) -> (r: Self)
        ensures
            r == *self,
        decreases self,
    {
        match self {
            RustType::I32 => RustType::I32,
            RustType::F64 => RustType::F64,
            RustType::Usize => RustType::Usize,
            RustType::Bool => RustType::Bool,
            RustType::String => RustType::String,
            RustType::Char => RustType::Char,
            RustType::Vec(inner) => RustType::Vec(Box::new((**inner).clone())),
            RustType::MutRef(inner) => RustType::MutRef(Box::new((**inner).clone())),
            RustType::Void => RustType::Void,
        }
    }
}

impl RustType {
    /// The type behind a mutable reference; any other type is itself.
    pub open spec fn referent(self) -> RustType {
        match self {
            RustType::MutRef(inner) => *inner,
            other => other,
        }
    }
}

impl SignatureView {
    /// Whether one of the first `n` parameters is a mutable reference.
    pub open spec fn has_mut_ref_before(self, n: int) -> bool {
        exists|i: int| 0 <= i < n && i < self.params.len() && (#[trigger] self.params[i]).ty is MutRef
    }

    /// Whether a parameter is a mutable reference.
    pub open spec fn has_mut_ref(self) -> bool {
        self.has_mut_ref_before(self.params.len() as int)
    }

    /// Whether the function hands its result back through a parameter: it
    /// returns nothing and takes a mutable reference.
    pub open spec fn returns_through_parameter(self) -> bool {
        self.return_type is Void && self.has_mut_ref()
    }

    /// The index of the first parameter at or after `i` that is a mutable
    /// reference, or the number of parameters where none is.
    pub open spec fn next_mut_ref(self, i: int) -> int
        decreases self.params.len() - i,
    {
        if 0 <= i < self.params.len() && !(self.params[i].ty is MutRef) {
            self.next_mut_ref(i + 1)
        } else {
            i
        }
    }

    /// The first parameter that is a mutable reference.
    pub open spec fn first_mut_ref(self) -> Option<ParamView> {
        let i = self.next_mut_ref(0);
        if 0 <= i < self.params.len() {
            Some(self.params[i])
        } else {
            None
        }
    }
}

/// From `i` on, `next_mut_ref` stays within `i..=params.len()`; it stops at a
/// mutable reference and none lies before it.
pub proof fn lemma_next_mut_ref(sig: SignatureView, i: int)
    requires
        0 <= i <= sig.params.len(),
    ensures
        i <= sig.next_mut_ref(i) <= sig.params.len(),
        sig.next_mut_ref(i) < sig.params.len() ==> sig.params[sig.next_mut_ref(i)].ty is MutRef,
        forall|k: int| i <= k < sig.next_mut_ref(i) ==> !((#[trigger] sig.params[k]).ty is MutRef),
    decreases sig.params.len() - i,
{
    if i < sig.params.len() && !(sig.params[i].ty is MutRef) {
        lemma_next_mut_ref(sig, i + 1);
    }
}

/// A signature has a first mutable reference exactly if it has one at all.
pub proof fn lemma_first_mut_ref(sig: SignatureView)
    ensures
        sig.first_mut_ref() is Some <==> sig.has_mut_ref(),
        sig.first_mut_ref() matches Some(p) ==> p.ty is MutRef,
{
    lemma_next_mut_ref(sig, 0);
    let i = sig.next_mut_ref(0);
    if i < sig.params.len() {
        assert(sig.params[i].ty is MutRef);
    }
}

/// The type that `s` writes, or what is wrong with it.
///
/// White space around a type does not count. `&mut` and a space before a type
/// write a mutable reference to it, `Vec<` and `>` around a type a list of it;
/// the other types are written by their names.
pub open spec fn type_of(s: Seq<char>) -> Result<RustType, Seq<char>>
    decreases s.len(),
    via type_of_decreases
{
    let t = trimmed(s);
    if has_prefix(t, "&mut "@) {
        match type_of(t.skip("&mut "@.len() as int)) {
            Ok(inner) => Ok(RustType::MutRef(Box::new(inner))),
            Err(e) => Err(e),
        }
    } else if has_prefix(t, "Vec<"@) {
        let rest = t.skip("Vec<"@.len() as int);
        if has_suffix(rest, ">"@) {
            match type_of(rest.take(rest.len() - ">"@.len())) {
                Ok(item) => Ok(RustType::Vec(Box::new(item))),
                Err(e) => Err(e),
            }
        } else {
            Err("Unclosed Vec<> in type: '"@ + t + "'"@)
        }
    } else if t == "i32"@ {
        Ok(RustType::I32)
    } else if t == "f64"@ {
        Ok(RustType::F64)
    } else if t == "usize"@ {
        Ok(RustType::Usize)
    } else if t == "bool"@ {
        Ok(RustType::Bool)
    } else if t == "String"@ {
        Ok(RustType::String)
    } else if t == "char"@ {
        Ok(RustType::Char)
    } else {
        Err("Unknown type: '"@ + t + "'"@)
    }
}

#[via_fn]
proof fn type_of_decreases(s: Seq<char>) {
    reveal_strlit("&mut ");
    reveal_strlit("Vec<");
    reveal_strlit(">");
    lemma_trimmed_len(s);
}

/// Reads the type that `ty_str` writes.
pub fn parse_type(ty_str: &[char]) -> (r: Result<RustType, String>)
    ensures
        (match type_of(ty_str@) {
            Ok(ty) => r == Ok::<RustType, String>(ty),
            Err(message) => r matches Err(e) && e@ == message,
        }),
    decreases ty_str@.len(),
{
    proof {
        reveal_strlit("&mut ");
        reveal_strlit("Vec<");
        reveal_strlit(">");
        lemma_trimmed_len(ty_str@);
    }
    let t = trim(ty_str);
    let reference = to_chars("&mut ");
    let list = to_chars("Vec<");
    if starts_with(t, reference.as_slice()) {
        let inner = slice_subrange(t, reference.len(), t.len());
        assert(inner@ == t@.skip("&mut "@.len() as int));
        match parse_type(inner) {
            Ok(ty) => Ok(RustType::MutRef(Box::new(ty))),
            Err(e) => Err(e),
        }
    } else if starts_with(t, list.as_slice()) {
        let rest = slice_subrange(t, list.len(), t.len());
        assert(rest@ == t@.skip("Vec<"@.len() as int));
        let close = to_chars(">");
        if ends_with(rest, close.as_slice()) {
            let inner = slice_subrange(rest, 0, rest.len() - close.len());
            assert(inner@ == rest@.take(rest@.len() - ">"@.len()));
            match parse_type(inner) {
                Ok(ty) => Ok(RustType::Vec(Box::new(ty))),
                Err(e) => Err(e),
            }
        } else {
            let mut message = String::from_str("Unclosed Vec<> in type: '");
            push_chars(&mut message, t);
            message.append("'");
            Err(message)
        }
    } else if same(t, to_chars("i32").as_slice()) {
        Ok(RustType::I32)
    } else if same(t, to_chars("f64").as_slice()) {
        Ok(RustType::F64)
    } else if same(t, to_chars("usize").as_slice()) {
        Ok(RustType::Usize)
    } else if same(t, to_chars("bool").as_slice()) {
        Ok(RustType::Bool)
    } else if same(t, to_chars("String").as_slice()) {
        Ok(RustType::String)
    } else if same(t, to_chars("char").as_slice()) {
        Ok(RustType::Char)
    } else {
        let mut message = String::from_str("Unknown type: '");
        push_chars(&mut message, t);
        message.append("'");
        Err(message)
    }
}

/// The index of the `)` at or after `i` that brings the count of open
/// parentheses, `depth` at `i`, back to zero.
pub open spec fn closing_from(s: Seq<char>, i: int, depth: int) -> Option<int>
    decreases s.len() - i,
{
    if i < 0 || i >= s.len() {
        None
    } else if s[i] == '(' {
        closing_from(s, i + 1, depth + 1)
    } else if s[i] == ')' {
        if depth == 1 {
            Some(i)
        } else {
            closing_from(s, i + 1, depth - 1)
        }
    } else {
        closing_from(s, i + 1, depth)
    }
}

/// The index of the `)` that closes what opens at `open`.
pub open spec fn matching_paren(s: Seq<char>, open: int) -> Option<int> {
    closing_from(s, open, 0)
}

/// What is found from `i` on lies at or after `i` and within `s`.
pub proof fn lemma_closing_from(s: Seq<char>, i: int, depth: int)
    requires
        0 <= i,
    ensures
        closing_from(s, i, depth) matches Some(k) ==> i <= k < s.len() && s[k] == ')',
    decreases s.len() - i,
{
    if i < s.len() {
        if s[i] == '(' {
            lemma_closing_from(s, i + 1, depth + 1);
        } else if s[i] == ')' {
            if depth != 1 {
                lemma_closing_from(s, i + 1, depth - 1);
            }
        } else {
            lemma_closing_from(s, i + 1, depth);
        }
    }
}

/// Finds the `)` that closes what opens at `open`.
pub fn find_matching_paren(s: &[char], open: usize) -> (r: Result<usize, String>)
    requires
        open <= s@.len(),
    ensures
        (match matching_paren(s@, open as int) {
            Some(k) => r == Ok::<usize, String>(k as usize) && open <= k < s@.len(),
            None => r matches Err(e) && e@ == "Unmatched parenthesis"@,
        }),
{
    let mut depth: i128 = 0;
    let mut i: usize = open;
    proof {
        lemma_closing_from(s@, open as int, 0);
    }
    while i < s.len()
        invariant
            open <= i <= s@.len(),
            open - i <= depth <= i - open,
            closing_from(s@, i as int, depth as int) == matching_paren(s@, open as int),
        decreases s@.len() - i,
    {
        let c = s[i];
        if c == '(' {
            depth += 1;
        } else if c == ')' {
            if depth == 1 {
                return Ok(i);
            }
            depth -= 1;
        }
        i += 1;
    }
    Err(String::from_str("Unmatched parenthesis"))
}

/// The pieces of `s` from `start` on that lie between commas outside angle
/// brackets. `i` is the index that the reading has come to, and `depth` the
/// count of angle brackets open there.
pub open spec fn top_level_from(s: Seq<char>, i: int, depth: int, start: int) -> Seq<Seq<char>>
    decreases s.len() - i,
{
    if i < 0 || i >= s.len() {
        seq![s.subrange(start, s.len() as int)]
    } else if s[i] == '<' {
        top_level_from(s, i + 1, depth + 1, start)
    } else if s[i] == '>' {
        top_level_from(s, i + 1, depth - 1, start)
    } else if s[i] == ',' && depth == 0 {
        seq![s.subrange(start, i)] + top_level_from(s, i + 1, depth, i + 1)
    } else {
        top_level_from(s, i + 1, depth, start)
    }
}

/// The pieces of `s` between the commas that stand outside angle brackets.
pub open spec fn top_level_pieces(s: Seq<char>) -> Seq<Seq<char>> {
    top_level_from(s, 0, 0, 0)
}

/// Splits `s` at the commas that stand outside angle brackets.
pub fn split_respecting_angle_brackets<'a>(s: &'a [char]) -> (r: Vec<&'a [char]>)
    ensures
        views(r@) == top_level_pieces(s@),
{
    let mut parts: Vec<&'a [char]> = Vec::new();
    let mut depth: i128 = 0;
    let mut start: usize = 0;
    let mut i: usize = 0;
    assert(views(parts@) + top_level_pieces(s@) =~= top_level_pieces(s@));
    while i < s.len()
        invariant
            start <= i <= s@.len(),
            -i <= depth <= i,
            views(parts@) + top_level_from(s@, i as int, depth as int, start as int)
                == top_level_pieces(s@),
        decreases s@.len() - i,
    {
        let c = s[i];
        if c == '<' {
            depth += 1;
        } else if c == '>' {
            depth -= 1;
        } else if c == ',' && depth == 0 {
            let ghost before = views(parts@);
            parts.push(slice_subrange(s, start, i));
            assert(views(parts@) =~= before.push(s@.subrange(start as int, i as int)));
            assert(views(parts@) + top_level_from(s@, i + 1, depth as int, i + 1) =~= before
                + top_level_from(s@, i as int, depth as int, start as int));
            start = i + 1;
        }
        i += 1;
    }
    let ghost before = views(parts@);
    parts.push(slice_subrange(s, start, s.len()));
    assert(views(parts@) =~= before + top_level_from(s@, i as int, depth as int, start as int));
    parts
}

/// The parameter that `part` declares, or what is wrong with it: a name, a
/// colon and a type. A part with nothing but white space declares none.
pub open spec fn param_of(part: Seq<char>) -> Result<Option<ParamView>, Seq<char>> {
    let p = trimmed(part);
    if p.len() == 0 {
        Ok(None)
    } else {
        match position_of(p, ':') {
            None => Err("Missing ':' in parameter: '"@ + p + "'"@),
            Some(colon) => match type_of(p.skip(colon + 1)) {
                Ok(ty) => Ok(Some(ParamView { name: trimmed(p.take(colon)), ty })),
                Err(e) => Err(e),
            },
        }
    }
}

/// The parameters that the first `n` of `parts` declare, in order, or what is
/// wrong with the first part that is wrong.
pub open spec fn params_from(parts: Seq<Seq<char>>, n: int) -> Result<Seq<ParamView>, Seq<char>>
    decreases n,
{
    if n <= 0 || n > parts.len() {
        Ok(Seq::empty())
    } else {
        match params_from(parts, n - 1) {
            Err(e) => Err(e),
            Ok(before) => match param_of(parts[n - 1]) {
                Err(e) => Err(e),
                Ok(None) => Ok(before),
                Ok(Some(p)) => Ok(before.push(p)),
            },
        }
    }
}

/// The parameters that `s` declares, or what is wrong with it: declarations
/// with commas between them, where a comma inside angle brackets belongs to
/// a type.
pub open spec fn params_of(s: Seq<char>) -> Result<Seq<ParamView>, Seq<char>> {
    let t = trimmed(s);
    if t.len() == 0 {
        Ok(Seq::empty())
    } else {
        params_from(top_level_pieces(t), top_level_pieces(t).len() as int)
    }
}

/// Reads the parameter that `part` declares.
fn parse_param(part: &[char]) -> (r: Result<Option<Param>, String>)
    ensures
        (match param_of(part@) {
            Ok(Some(p)) => r matches Ok(Some(q)) && q@ == p,
            Ok(None) => r matches Ok(None),
            Err(message) => r matches Err(e) && e@ == message,
        }),
{
    let p = trim(part);
    if p.len() == 0 {
        return Ok(None);
    }
    match find(p, ':') {
        None => {
            let mut message = String::from_str("Missing ':' in parameter: '");
            push_chars(&mut message, p);
            message.append("'");
            Err(message)
        },
        Some(colon) => {
            proof {
                lemma_next_index(p@, ':', 0);
            }
            let name = from_chars(trim(slice_subrange(p, 0, colon)));
            let ty_str = slice_subrange(p, colon + 1, p.len());
            assert(ty_str@ == p@.skip(colon + 1));
            assert(p@.subrange(0, colon as int) == p@.take(colon as int));
            match parse_type(ty_str) {
                Ok(ty) => Ok(Some(Param { name, ty })),
                Err(e) => Err(e),
            }
        },
    }
}

/// Reads the parameters that `params_str` declares.
pub fn parse_params(params_str: &[char]) -> (r: Result<Vec<Param>, String>)
    ensures
        (match params_of(params_str@) {
            Ok(params) => r matches Ok(v) && views(v@) == params,
            Err(message) => r matches Err(e) && e@ == message,
        }),
{
    let inner = trim(params_str);
    let mut params: Vec<Param> = Vec::new();
    assert(views(params@) =~= Seq::<ParamView>::empty());
    if inner.len() == 0 {
        return Ok(params);
    }
    let parts = split_respecting_angle_brackets(inner);
    let ghost pieces = top_level_pieces(inner@);
    let mut i: usize = 0;
    while i < parts.len()
        invariant
            i <= parts@.len(),
            views(parts@) == pieces,
            trimmed(params_str@).len() != 0,
            pieces == top_level_pieces(trimmed(params_str@)),
            params_from(pieces, i as int) == Ok::<Seq<ParamView>, Seq<char>>(views(params@)),
        decreases parts@.len() - i,
    {
        assert(pieces[i as int] == parts@[i as int]@);
        match parse_param(parts[i]) {
            Err(e) => {
                proof {
                    lemma_params_from_error(pieces, i + 1, pieces.len() as int);
                }
                return Err(e);
            },
            Ok(None) => {},
            Ok(Some(p)) => {
                let ghost before = views(params@);
                params.push(p);
                assert(views(params@) =~= before.push(p@));
            },
        }
        i += 1;
    }
    Ok(params)
}

/// Once a part is wrong, reading further parts changes nothing.
pub proof fn lemma_params_from_error(parts: Seq<Seq<char>>, n: int, m: int)
    requires
        0 <= n <= m <= parts.len(),
        params_from(parts, n) is Err,
    ensures
        params_from(parts, m) == params_from(parts, n),
    decreases m - n,
{
    if n < m {
        lemma_params_from_error(parts, n, m - 1);
    }
}

/// The signature that `text` writes, or what is wrong with it.
///
/// A signature is written as `fn`, a space, the name, the parameters between
/// parentheses and, where the function returns something, `->` and the type
/// of the result. White space around the whole, the name, a parameter or a
/// type does not count.
pub open spec fn signature_of(text: Seq<char>) -> Result<SignatureView, Seq<char>> {
    let t = trimmed(text);
    if !has_prefix(t, "fn "@) {
        Err("Signature must start with 'fn '"@)
    } else {
        let rest = t.skip("fn "@.len() as int);
        match position_of(rest, '(') {
            None => Err("Missing opening parenthesis"@),
            Some(open) => match matching_paren(rest, open) {
                None => Err("Unmatched parenthesis"@),
                Some(close) => match params_of(rest.subrange(open + 1, close)) {
                    Err(e) => Err(e),
                    Ok(params) => match return_type_of(rest.skip(close + 1)) {
                        Err(e) => Err(e),
                        Ok(return_type) => Ok(
                            SignatureView { name: trimmed(rest.take(open)), params, return_type },
                        ),
                    },
                },
            },
        }
    }
}

/// The type of the result that `s`, the text behind the parameters, writes:
/// the type behind `->`, and nothing where `s` does not begin with `->`.
pub open spec fn return_type_of(s: Seq<char>) -> Result<RustType, Seq<char>> {
    let after = trimmed(s);
    if has_prefix(after, "->"@) {
        type_of(after.skip("->"@.len() as int))
    } else {
        Ok(RustType::Void)
    }
}

/// Reads the type of the result from the text behind the parameters.
fn parse_return_type(s: &[char]) -> (r: Result<RustType, String>)
    ensures
        (match return_type_of(s@) {
            Ok(ty) => r == Ok::<RustType, String>(ty),
            Err(message) => r matches Err(e) && e@ == message,
        }),
{
    let after = trim(s);
    let arrow = to_chars("->");
    if starts_with(after, arrow.as_slice()) {
        let ty_str = slice_subrange(after, arrow.len(), after.len());
        assert(ty_str@ == after@.skip("->"@.len() as int));
        parse_type(ty_str)
    } else {
        Ok(RustType::Void)
    }
}

/// Reads a signature from its notation.
pub fn parse_signature(sig: &str) -> (r: Result<FunctionSignature, String>)
    ensures
        (match signature_of(sig@) {
            Ok(signature) => r matches Ok(s) && s@ == signature,
            Err(message) => r matches Err(e) && e@ == message,
        }),
{
    let chars = to_chars(sig);
    let t = trim(chars.as_slice());
    let keyword = to_chars("fn ");
    if !starts_with(t, keyword.as_slice()) {
        return Err(String::from_str("Signature must start with 'fn '"));
    }
    let rest = slice_subrange(t, keyword.len(), t.len());
    assert(rest@ == t@.skip("fn "@.len() as int));
    let paren_open = match find(rest, '(') {
        Some(i) => i,
        None => {
            return Err(String::from_str("Missing opening parenthesis"));
        },
    };
    proof {
        lemma_next_index(rest@, '(', 0);
    }
    let name = from_chars(trim(slice_subrange(rest, 0, paren_open)));
    assert(rest@.subrange(0, paren_open as int) == rest@.take(paren_open as int));
    let paren_close = match find_matching_paren(rest, paren_open) {
        Ok(i) => i,
        Err(e) => {
            return Err(e);
        },
    };
    proof {
        lemma_closing_from(rest@, paren_open as int, 0);
        assert(rest@[paren_open as int] == '(');
        assert(paren_close > paren_open);
    }
    let params = match parse_params(slice_subrange(rest, paren_open + 1, paren_close)) {
        Ok(params) => params,
        Err(e) => {
            return Err(e);
        },
    };
    let after = slice_subrange(rest, paren_close + 1, rest.len());
    assert(after@ == rest@.skip(paren_close + 1));
    let return_type = match parse_return_type(after) {
        Ok(ty) => ty,
        Err(e) => {
            return Err(e);
        },
    };
    let parsed = FunctionSignature { name, params, return_type };
    assert(parsed@.params =~= views(params@));
    Ok(parsed)
}

} // verus!
