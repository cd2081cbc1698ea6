#![allow(non_snake_case)]

use base_traits::ToU128;
use std::rc as std_rc;

struct CustomType {
    value: u128,
}

impl ToU128 for CustomType {
    fn to_u128(&self) -> u128 {
        self.value as u128
    }
}

#[test]
fn to_u128_TEST_RANGE_OF_VALUES() {
    const VALUES: &[u128] = &[
        // insert list:
        0,
        1,
        2, 4, 8, 16, 32, 64, 128, 256,
        u32::MAX as u128,
    ];

    for &value in VALUES {
        let expected = value;
        let instance = CustomType { value: value as u128 };
        let actual = instance.to_u128();

        assert_eq!(expected, actual);
    }
}

#[test]
fn TEST_RANGE_OF_u128_VALUES() {
    const VALUES: &[u128] = &[
        // insert list:
        0,
        1,
        2,
        4,
        8,
        16,
        32,
        64,
        128,
        256,
        u128::MAX,
    ];

    for &value in VALUES {
        let expected = value;
        let actual = value.to_u128();

        assert_eq!(expected, actual);
    }
}

#[test]
fn to_u128_TEST_RANGE_OF_u16_VALUES_REF() {
    const VALUES: &[u16] = &[
        // insert list:
        0,
        1,
        2,
        4,
        8,
        16,
        32,
        64,
        128,
        256,
        u16::MAX,
    ];

    for &value in VALUES {
        let expected = value as u128;
        let actual = (&value).to_u128();

        assert_eq!(expected, actual);
    }
}

#[test]
fn to_u128_TEST_RANGE_OF_u32_VALUES_REF() {
    const VALUES: &[u32] = &[
        // insert list:
        0,
        1,
        2,
        4,
        8,
        16,
        32,
        64,
        128,
        256,
        u32::MAX,
    ];

    for &value in VALUES {
        let expected = value as u128;
        let actual = (&value).to_u128();

        assert_eq!(expected, actual);
    }
}

#[test]
fn TEST_RANGE_OF_u128_VALUES_REF() {
    const VALUES: &[u128] = &[
        // insert list:
        0,
        1,
        2,
        4,
        8,
        16,
        32,
        64,
        128,
        256,
        u128::MAX,
    ];

    for &value in VALUES {
        let expected = value;
        let actual = (&value).to_u128();

        assert_eq!(expected, actual);
    }
}

#[test]
fn TEST_RANGE_OF_u128_VALUES_IN_Box() {
    const VALUES: &[u128] = &[
        // insert list:
        0,
        1,
        2,
        4,
        8,
        16,
        32,
        64,
        128,
        256,
        u128::MAX,
    ];

    for &value in VALUES {
        let expected = value;
        let instance = Box::new(value);
        let actual = instance.to_u128();

        assert_eq!(expected, actual);
    }
}

#[test]
fn TEST_RANGE_OF_u128_VALUES_IN_REF_Box() {
    const VALUES: &[u128] = &[
        // insert list:
        0,
        1,
        2,
        4,
        8,
        16,
        32,
        64,
        128,
        256,
        u128::MAX,
    ];

    for &value in VALUES {
        let expected = value;
        let instance = Box::new(value);
        let actual = (&instance).to_u128();

        assert_eq!(expected, actual);
    }
}

#[test]
fn TEST_RANGE_OF_u128_VALUES_IN_Rc() {
    const VALUES: &[u128] = &[
        // insert list:
        0,
        1,
        2,
        4,
        8,
        16,
        32,
        64,
        128,
        256,
        u128::MAX,
    ];

    for &value in VALUES {
        let expected = value;
        let instance = std_rc::Rc::new(value);
        let actual = instance.to_u128();

        assert_eq!(expected, actual);
    }
}

#[test]
fn TEST_RANGE_OF_u128_VALUES_IN_REF_Rc() {
    const VALUES: &[u128] = &[
        // insert list:
        0,
        1,
        2,
        4,
        8,
        16,
        32,
        64,
        128,
        256,
        u128::MAX,
    ];

    for &value in VALUES {
        let expected = value;
        let instance = std_rc::Rc::new(value);
        let actual = (&instance).to_u128();

        assert_eq!(expected, actual);
    }
}
