use pocketsphinx::ngram::{set_counts_agree, NgramFileType};

#[test]
fn file_type_from_code() {
    assert_eq!(NgramFileType::from_i32(-1), NgramFileType::Invalid);
    assert_eq!(NgramFileType::from_i32(0), NgramFileType::Auto);
    assert_eq!(NgramFileType::from_i32(1), NgramFileType::Arpa);
    assert_eq!(NgramFileType::from_i32(2), NgramFileType::Bin);
}

#[test]
fn file_type_to_code() {
    assert_eq!(NgramFileType::Invalid.to_i32(), -1);
    assert_eq!(NgramFileType::Auto.to_i32(), 0);
    assert_eq!(NgramFileType::Arpa.to_i32(), 1);
    assert_eq!(NgramFileType::Bin.to_i32(), 2);
    for code in -1..=2 {
        assert_eq!(NgramFileType::from_i32(code).to_i32(), code);
    }
}

#[test]
fn a_set_needs_a_name_and_a_weight_for_each_model() {
    assert!(set_counts_agree(3, 3, None));
    assert!(set_counts_agree(3, 3, Some(3)));
    assert!(set_counts_agree(0, 0, Some(0)));
    assert!(!set_counts_agree(3, 2, None));
    assert!(!set_counts_agree(3, 3, Some(2)));
    assert!(!set_counts_agree(2, 3, Some(3)));
}
