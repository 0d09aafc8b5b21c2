use codle::models::signature::{parse_signature, RustType};

#[test]
fn test_two_sum() {
    let sig = parse_signature("fn two_sum(nums: Vec<i32>, target: i32) -> Vec<usize>").unwrap();
    assert_eq!(sig.name, "two_sum");
    assert_eq!(sig.params.len(), 2);
    assert_eq!(sig.params[0].name, "nums");
    assert_eq!(sig.params[0].ty, RustType::Vec(Box::new(RustType::I32)));
    assert_eq!(sig.params[1].name, "target");
    assert_eq!(sig.params[1].ty, RustType::I32);
    assert_eq!(sig.return_type, RustType::Vec(Box::new(RustType::Usize)));
}

#[test]
fn test_reverse_string() {
    let sig = parse_signature("fn reverse_string(s: &mut Vec<char>)").unwrap();
    assert_eq!(sig.name, "reverse_string");
    assert_eq!(sig.params.len(), 1);
    assert_eq!(
        sig.params[0].ty,
        RustType::MutRef(Box::new(RustType::Vec(Box::new(RustType::Char))))
    );
    assert_eq!(sig.return_type, RustType::Void);
}

#[test]
fn test_is_valid() {
    let sig = parse_signature("fn is_valid(s: String) -> bool").unwrap();
    assert_eq!(sig.name, "is_valid");
    assert_eq!(sig.params[0].ty, RustType::String);
    assert_eq!(sig.return_type, RustType::Bool);
}

#[test]
fn test_find_median() {
    let sig = parse_signature(
        "fn find_median_sorted_arrays(nums1: Vec<i32>, nums2: Vec<i32>) -> f64",
    )
    .unwrap();
    assert_eq!(sig.return_type, RustType::F64);
}

#[test]
fn test_merge() {
    let sig = parse_signature(
        "fn merge(nums1: &mut Vec<i32>, m: i32, nums2: &mut Vec<i32>, n: i32)",
    )
    .unwrap();
    assert_eq!(sig.params.len(), 4);
    assert_eq!(
        sig.params[0].ty,
        RustType::MutRef(Box::new(RustType::Vec(Box::new(RustType::I32))))
    );
    assert_eq!(sig.params[2].name, "nums2");
}
