use bddisasm::Category;
use bddisasm::DecodeError;
use bddisasm::IsaSet;

#[test]
fn category_code_zero_is_the_invalid_marker() {
    assert_eq!(Category::try_from(0), Err(DecodeError::InternalError(0)));
}

#[test]
fn category_codes_map_in_table_order() {
    assert_eq!(Category::try_from(1), Ok(Category::I3dnow));
    assert_eq!(Category::try_from(5), Ok(Category::Arith));
    assert_eq!(Category::try_from(28), Ok(Category::Dataxfer));
}

#[test]
fn category_code_past_the_table_is_an_internal_error() {
    assert_eq!(Category::try_from(100000), Err(DecodeError::InternalError(100000)));
}

#[test]
fn isa_set_code_zero_is_the_invalid_marker() {
    assert_eq!(IsaSet::try_from(0), Err(DecodeError::InternalError(0)));
}

#[test]
fn isa_set_codes_map_in_table_order() {
    assert_eq!(IsaSet::try_from(1), Ok(IsaSet::I3DNOW));
    assert_eq!(IsaSet::try_from(2), Ok(IsaSet::ADX));
    assert_eq!(IsaSet::try_from(3), Ok(IsaSet::AES));
}

#[test]
fn isa_set_code_past_the_table_is_an_internal_error() {
    assert_eq!(IsaSet::try_from(100000), Err(DecodeError::InternalError(100000)));
}
