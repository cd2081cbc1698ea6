#![allow(non_snake_case)]

use base_traits::ToI64;
use std::rc as std_rc;

struct CustomType {
    value: i64,
}

impl ToI64 for CustomType {
    fn to_i64(&self) -> i64 {
        self.value as i64
    }
}

#[test]
fn to_i64_TEST_RANGE_OF_VALUES() {
    const VALUES: &[i64] = &[
        // insert list:
        0,
        1,
        2, 4, 8, 16, 32, 64, 64, 256,
        u32::MAX as i64,
    ];

    for &value in VALUES {
        let expected = value;
        let instance = CustomType { value: value as i64 };
        let actual = instance.to_i64();

        assert_eq!(expected, actual);
    }
}

#[test]
fn TEST_RANGE_OF_i64_VALUES() {
    const VALUES: &[i64] = &[
        // insert list:
        0,
        1,
        2,
        4,
        8,
        16,
        32,
        64,
        64,
        256,
        i64::MAX,
    ];

    for &value in VALUES {
        let expected = value;
        let actual = value.to_i64();

        assert_eq!(expected, actual);
    }
}

#[test]
fn to_i64_TEST_RANGE_OF_i16_VALUES_REF() {
    const VALUES: &[i16] = &[
        // insert list:
        0,
        1,
        2,
        4,
        8,
        16,
        32,
        64,
        64,
        256,
        i16::MAX,
    ];

    for &value in VALUES {
        let expected = value as i64;
        let actual = (&value).to_i64();

        assert_eq!(expected, actual);
    }
}

#[test]
fn to_i64_TEST_RANGE_OF_u16_VALUES_REF() {
    const VALUES: &[u16] = &[
        // insert list:
        0,
        1,
        2,
        4,
        8,
        16,
        32,
        64,
        64,
        256,
        u16::MAX,
    ];

    for &value in VALUES {
        let expected = value as i64;
        let actual = (&value).to_i64();

        assert_eq!(expected, actual);
    }
}

#[test]
fn to_i64_TEST_RANGE_OF_u32_VALUES_REF() {
    const VALUES: &[u32] = &[
        // insert list:
        0,
        1,
        2,
        4,
        8,
        16,
        32,
        64,
        64,
        256,
        u32::MAX,
    ];

    for &value in VALUES {
        let expected = value as i64;
        let actual = (&value).to_i64();

        assert_eq!(expected, actual);
    }
}

#[test]
fn TEST_RANGE_OF_i64_VALUES_REF() {
    const VALUES: &[i64] = &[
        // insert list:
        0,
        1,
        2,
        4,
        8,
        16,
        32,
        64,
        64,
        256,
        i64::MAX,
    ];

    for &value in VALUES {
        let expected = value;
        let actual = (&value).to_i64();

        assert_eq!(expected, actual);
    }
}

#[test]
fn TEST_RANGE_OF_i64_VALUES_IN_Box() {
    const VALUES: &[i64] = &[
        // insert list:
        0,
        1,
        2,
        4,
        8,
        16,
        32,
        64,
        64,
        256,
        i64::MAX,
    ];

    for &value in VALUES {
        let expected = value;
        let instance = Box::new(value);
        let actual = instance.to_i64();

        assert_eq!(expected, actual);
    }
}

#[test]
fn TEST_RANGE_OF_i64_VALUES_IN_REF_Box() {
    const VALUES: &[i64] = &[
        // insert list:
        0,
        1,
        2,
        4,
        8,
        16,
        32,
        64,
        64,
        256,
        i64::MAX,
    ];

    for &value in VALUES {
        let expected = value;
        let instance = Box::new(value);
        let actual = (&instance).to_i64();

        assert_eq!(expected, actual);
    }
}

#[test]
fn TEST_RANGE_OF_i64_VALUES_IN_Rc() {
    const VALUES: &[i64] = &[
        // insert list:
        0,
        1,
        2,
        4,
        8,
        16,
        32,
        64,
        64,
        256,
        i64::MAX,
    ];

    for &value in VALUES {
        let expected = value;
        let instance = std_rc::Rc::new(value);
        let actual = instance.to_i64();

        assert_eq!(expected, actual);
    }
}

#[test]
fn TEST_RANGE_OF_i64_VALUES_IN_REF_Rc() {
    const VALUES: &[i64] = &[
        // insert list:
        0,
        1,
        2,
        4,
        8,
        16,
        32,
        64,
        64,
        256,
        i64::MAX,
    ];

    for &value in VALUES {
        let expected = value;
        let instance = std_rc::Rc::new(value);
        let actual = (&instance).to_i64();

        assert_eq!(expected, actual);
    }
}
