#![allow(non_snake_case)]

use base_traits::ToI128;
use std::rc as std_rc;

struct CustomType {
    value: u64,
}

impl ToI128 for CustomType {
    fn to_i128(&self) -> i128 {
        self.value as i128
    }
}

#[test]
fn to_i128_TEST_RANGE_OF_VALUES() {
    const VALUES: &[i128] = &[
        // insert list:
        0,
        1,
        2, 4, 8, 16, 32, 64, 128, 256,
        u32::MAX as i128,
    ];

    for &value in VALUES {
        let expected = value;
        let instance = CustomType { value: value as u64 };
        let actual = instance.to_i128();

        assert_eq!(expected, actual);
    }
}

#[test]
fn TEST_RANGE_OF_i128_VALUES() {
    const VALUES: &[i128] = &[
        // insert list:
        0,
        1,
        2,
        4,
        8,
        16,
        32,
        64,
        128,
        256,
        i128::MAX,
    ];

    for &value in VALUES {
        let expected = value;
        let actual = value.to_i128();

        assert_eq!(expected, actual);
    }
}

#[test]
fn to_i128_TEST_RANGE_OF_i16_VALUES_REF() {
    const VALUES: &[i16] = &[
        // insert list:
        0,
        1,
        2,
        4,
        8,
        16,
        32,
        64,
        128,
        256,
        i16::MAX,
    ];

    for &value in VALUES {
        let expected = value as i128;
        let actual = (&value).to_i128();

        assert_eq!(expected, actual);
    }
}

#[test]
fn to_i128_TEST_RANGE_OF_u16_VALUES_REF() {
    const VALUES: &[u16] = &[
        // insert list:
        0,
        1,
        2,
        4,
        8,
        16,
        32,
        64,
        128,
        256,
        u16::MAX,
    ];

    for &value in VALUES {
        let expected = value as i128;
        let actual = (&value).to_i128();

        assert_eq!(expected, actual);
    }
}

#[test]
fn to_i128_TEST_RANGE_OF_u32_VALUES_REF() {
    const VALUES: &[u32] = &[
        // insert list:
        0,
        1,
        2,
        4,
        8,
        16,
        32,
        64,
        128,
        256,
        u32::MAX,
    ];

    for &value in VALUES {
        let expected = value as i128;
        let actual = (&value).to_i128();

        assert_eq!(expected, actual);
    }
}

#[test]
fn TEST_RANGE_OF_i128_VALUES_REF() {
    const VALUES: &[i128] = &[
        // insert list:
        0,
        1,
        2,
        4,
        8,
        16,
        32,
        64,
        128,
        256,
        i128::MAX,
    ];

    for &value in VALUES {
        let expected = value;
        let actual = (&value).to_i128();

        assert_eq!(expected, actual);
    }
}

#[test]
fn TEST_RANGE_OF_i128_VALUES_IN_Box() {
    const VALUES: &[i128] = &[
        // insert list:
        0,
        1,
        2,
        4,
        8,
        16,
        32,
        64,
        128,
        256,
        i128::MAX,
    ];

    for &value in VALUES {
        let expected = value;
        let instance = Box::new(value);
        let actual = instance.to_i128();

        assert_eq!(expected, actual);
    }
}

#[test]
fn TEST_RANGE_OF_i128_VALUES_IN_REF_Box() {
    const VALUES: &[i128] = &[
        // insert list:
        0,
        1,
        2,
        4,
        8,
        16,
        32,
        64,
        128,
        256,
        i128::MAX,
    ];

    for &value in VALUES {
        let expected = value;
        let instance = Box::new(value);
        let actual = (&instance).to_i128();

        assert_eq!(expected, actual);
    }
}

#[test]
fn TEST_RANGE_OF_i128_VALUES_IN_Rc() {
    const VALUES: &[i128] = &[
        // insert list:
        0,
        1,
        2,
        4,
        8,
        16,
        32,
        64,
        128,
        256,
        i128::MAX,
    ];

    for &value in VALUES {
        let expected = value;
        let instance = std_rc::Rc::new(value);
        let actual = instance.to_i128();

        assert_eq!(expected, actual);
    }
}

#[test]
fn TEST_RANGE_OF_i128_VALUES_IN_REF_Rc() {
    const VALUES: &[i128] = &[
        // insert list:
        0,
        1,
        2,
        4,
        8,
        16,
        32,
        64,
        128,
        256,
        i128::MAX,
    ];

    for &value in VALUES {
        let expected = value;
        let instance = std_rc::Rc::new(value);
        let actual = (&instance).to_i128();

        assert_eq!(expected, actual);
    }
}
