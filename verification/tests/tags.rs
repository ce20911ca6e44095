use bqn_bridge::tag::{
    Category, ElementKind, RuntimeTag, Target, ARRAY_CODE, SCALAR_NUMBER_CODE,
};

const KINDS: [ElementKind; 8] = [
    ElementKind::Unknown,
    ElementKind::Int8,
    ElementKind::Int16,
    ElementKind::Int32,
    ElementKind::Double,
    ElementKind::Char8,
    ElementKind::Char16,
    ElementKind::Char32,
];

#[test]
fn category_codes_are_read() {
    assert_eq!(ARRAY_CODE, 0);
    assert_eq!(SCALAR_NUMBER_CODE, 1);
    assert_eq!(Category::from_code(0), Category::Array);
    assert_eq!(Category::from_code(1), Category::ScalarNumber);
    for code in [2, 3, 4, 5, 6, 7, -1, i32::MIN, i32::MAX] {
        assert_eq!(Category::from_code(code), Category::Other);
    }
}

#[test]
fn only_the_scalar_category_is_a_scalar_number() {
    assert!(Category::ScalarNumber.is_scalar_number());
    assert!(!Category::Array.is_scalar_number());
    assert!(!Category::Other.is_scalar_number());
}

#[test]
fn numeric_kinds_are_told_apart() {
    let numeric: Vec<bool> = KINDS.iter().map(|kind| kind.is_numeric()).collect();
    assert_eq!(numeric, vec![false, true, true, true, true, false, false, false]);
}

#[test]
fn character_kinds_are_told_apart() {
    let character: Vec<bool> = KINDS.iter().map(|kind| kind.is_character()).collect();
    assert_eq!(character, vec![false, false, false, false, false, true, true, true]);
}

#[test]
fn no_kind_is_both_numeric_and_character() {
    for kind in KINDS {
        assert!(!(kind.is_numeric() && kind.is_character()));
    }
}

#[test]
fn classification_keeps_the_kind_of_arrays_only() {
    for kind in KINDS {
        assert_eq!(RuntimeTag::classify(Category::Array, kind), RuntimeTag::Array(kind));
        assert_eq!(RuntimeTag::classify(Category::ScalarNumber, kind), RuntimeTag::ScalarNumber);
        assert_eq!(RuntimeTag::classify(Category::Other, kind), RuntimeTag::Other);
    }
}

#[test]
fn each_target_accepts_its_own_tags() {
    assert!(Target::Number.accepts(RuntimeTag::ScalarNumber));
    assert!(!Target::Text.accepts(RuntimeTag::ScalarNumber));
    assert!(!Target::Numbers.accepts(RuntimeTag::ScalarNumber));
    for target in [Target::Number, Target::Text, Target::Numbers] {
        assert!(!target.accepts(RuntimeTag::Other));
    }
    for kind in KINDS {
        let tag = RuntimeTag::Array(kind);
        assert!(!Target::Number.accepts(tag));
        assert_eq!(Target::Text.accepts(tag), kind.is_character());
        assert_eq!(Target::Numbers.accepts(tag), kind.is_numeric());
    }
}

#[test]
fn no_tag_is_accepted_by_two_targets() {
    let mut tags = vec![RuntimeTag::ScalarNumber, RuntimeTag::Other];
    tags.extend(KINDS.iter().map(|kind| RuntimeTag::Array(*kind)));
    for tag in tags {
        let accepting = [Target::Number, Target::Text, Target::Numbers]
            .iter()
            .filter(|target| target.accepts(tag))
            .count();
        assert!(accepting <= 1);
    }
}
