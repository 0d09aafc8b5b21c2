use codle::models::signature::{parse_signature, RustType};

fn list(item: RustType) -> RustType {
    RustType::Vec(Box::new(item))
}

#[test]
fn missing_keyword_is_reported() {
    let err = parse_signature("two_sum(nums: Vec<i32>)").unwrap_err();
    assert_eq!(err, "Signature must start with 'fn '");
    let err = parse_signature("fn\ttwo_sum()").unwrap_err();
    assert_eq!(err, "Signature must start with 'fn '");
    let err = parse_signature("").unwrap_err();
    assert_eq!(err, "Signature must start with 'fn '");
}

#[test]
fn missing_parenthesis_is_reported() {
    let err = parse_signature("fn two_sum").unwrap_err();
    assert_eq!(err, "Missing opening parenthesis");
}

#[test]
fn unmatched_parenthesis_is_reported() {
    let err = parse_signature("fn two_sum(nums: Vec<i32>").unwrap_err();
    assert_eq!(err, "Unmatched parenthesis");
    let err = parse_signature("fn f((a: i32)").unwrap_err();
    assert_eq!(err, "Unmatched parenthesis");
}

#[test]
fn missing_colon_is_reported_with_the_parameter() {
    let err = parse_signature("fn f(a: i32,  b i32 )").unwrap_err();
    assert_eq!(err, "Missing ':' in parameter: 'b i32'");
}

#[test]
fn unknown_type_is_reported_with_the_type() {
    let err = parse_signature("fn f(a: u64)").unwrap_err();
    assert_eq!(err, "Unknown type: 'u64'");
    let err = parse_signature("fn f(a: i32) ->  Option<i32> ").unwrap_err();
    assert_eq!(err, "Unknown type: 'Option<i32>'");
    let err = parse_signature("fn f(a: i32) -> ()").unwrap_err();
    assert_eq!(err, "Unknown type: '()'");
    let err = parse_signature("fn f(a: &mut\tVec<i32>)").unwrap_err();
    assert_eq!(err, "Unknown type: '&mut\tVec<i32>'");
}

#[test]
fn unclosed_list_is_reported_with_the_type() {
    let err = parse_signature("fn f(a: Vec<i32)").unwrap_err();
    assert_eq!(err, "Unclosed Vec<> in type: 'Vec<i32'");
    let err = parse_signature("fn f(a: Vec<Vec<i32>)").unwrap_err();
    assert_eq!(err, "Unclosed Vec<> in type: 'Vec<i32'");
    let err = parse_signature("fn f(a: Vec<i32>>)").unwrap_err();
    assert_eq!(err, "Unknown type: 'i32>'");
}

#[test]
fn first_error_wins() {
    let err = parse_signature("fn f(a i32, b: u8) -> q").unwrap_err();
    assert_eq!(err, "Missing ':' in parameter: 'a i32'");
    let err = parse_signature("fn f(a: i32, b: u8) -> q").unwrap_err();
    assert_eq!(err, "Unknown type: 'u8'");
}

#[test]
fn no_parameters() {
    let sig = parse_signature("fn now() -> usize").unwrap();
    assert_eq!(sig.name, "now");
    assert!(sig.params.is_empty());
    assert_eq!(sig.return_type, RustType::Usize);
    let sig = parse_signature("fn nothing(   )").unwrap();
    assert!(sig.params.is_empty());
    assert_eq!(sig.return_type, RustType::Void);
}

#[test]
fn nested_lists() {
    let sig = parse_signature("fn flat(grid: Vec<Vec<Vec<i32>>>) -> Vec<Vec<String>>").unwrap();
    assert_eq!(sig.params[0].ty, list(list(list(RustType::I32))));
    assert_eq!(sig.return_type, list(list(RustType::String)));
}

#[test]
fn white_space_does_not_count() {
    let sig = parse_signature("  \n fn   sum (  a :  i32 ,b:Vec< f64 >,  ) ->   bool  ").unwrap();
    assert_eq!(sig.name, "sum");
    assert_eq!(sig.params.len(), 2);
    assert_eq!(sig.params[0].name, "a");
    assert_eq!(sig.params[0].ty, RustType::I32);
    assert_eq!(sig.params[1].name, "b");
    assert_eq!(sig.params[1].ty, list(RustType::F64));
    assert_eq!(sig.return_type, RustType::Bool);
}

#[test]
fn reference_to_list_of_characters() {
    let sig = parse_signature("fn fill(buf: &mut Vec<char>)").unwrap();
    assert_eq!(sig.params[0].ty, RustType::MutRef(Box::new(list(RustType::Char))));
    assert_eq!(sig.return_type, RustType::Void);
}

#[test]
fn text_behind_the_parameters_without_an_arrow_is_no_result() {
    let sig = parse_signature("fn f(a: i32) i32").unwrap();
    assert_eq!(sig.return_type, RustType::Void);
}

#[test]
fn names_are_taken_as_they_stand() {
    let sig = parse_signature("fn größe(äpfel: i32, 数: bool)").unwrap();
    assert_eq!(sig.name, "größe");
    assert_eq!(sig.params[0].name, "äpfel");
    assert_eq!(sig.params[1].name, "数");
}

#[test]
fn written_signature_is_read_back() {
    let texts = [
        "fn two_sum(nums: Vec<i32>, target: i32) -> Vec<usize>",
        "fn fill(buf: &mut Vec<char>)",
        "fn f()",
        "fn g(a: &mut Vec<Vec<String>>, b: f64, c: char) -> bool",
    ];
    for text in texts {
        let sig = parse_signature(text).unwrap();
        let written = codle::lang::rust::header(&sig);
        assert_eq!(written, text);
        let again = parse_signature(&written).unwrap();
        assert_eq!(again.name, sig.name);
        assert_eq!(again.params.len(), sig.params.len());
        for (a, b) in again.params.iter().zip(sig.params.iter()) {
            assert_eq!(a.name, b.name);
            assert_eq!(a.ty, b.ty);
        }
        assert_eq!(again.return_type, sig.return_type);
    }
}
