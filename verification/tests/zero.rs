#![allow(non_snake_case)]

use base_traits::Zero;

#[derive(Debug)]
struct CustomType {
    pub value: i32,
}

impl Zero for CustomType {
    fn zero() -> Self {
        Self {
            value: -1,
        }
    }
}

#[test]
fn TEST_Zero() {
    let ct = CustomType::zero();

    assert_eq!(-1, ct.value);
}

#[test]
fn TEST_INTEGERS() {
    assert_eq!(0, i8::zero());
    assert_eq!(0, i16::zero());
    assert_eq!(0, i32::zero());
    assert_eq!(0, i64::zero());
    assert_eq!(0, i128::zero());

    assert_eq!(0, u8::zero());
    assert_eq!(0, u16::zero());
    assert_eq!(0, u32::zero());
    assert_eq!(0, u64::zero());
    assert_eq!(0, u128::zero());

    assert_eq!(0, isize::zero());
    assert_eq!(0, usize::zero());

    assert_eq!('\0', char::zero());
}
