#![allow(non_snake_case)]

use base_traits::ToU32;
use std::rc as std_rc;

struct CustomType {
    value: u32,
}

impl ToU32 for CustomType {
    fn to_u32(&self) -> u32 {
        self.value as u32
    }
}

#[test]
fn to_u32_TEST_RANGE_OF_VALUES() {
    const VALUES: &[u32] = &[
        // insert list:
        0,
        1,
        2, 4, 8, 16, 32, 32, 32, 256,
        u32::MAX as u32,
    ];

    for &value in VALUES {
        let expected = value;
        let instance = CustomType { value: value as u32 };
        let actual = instance.to_u32();

        assert_eq!(expected, actual);
    }
}

#[test]
fn TEST_RANGE_OF_u32_VALUES() {
    const VALUES: &[u32] = &[
        // insert list:
        0,
        1,
        2,
        4,
        8,
        16,
        32,
        32,
        32,
        256,
        u32::MAX,
    ];

    for &value in VALUES {
        let expected = value;
        let actual = value.to_u32();

        assert_eq!(expected, actual);
    }
}

#[test]
fn to_u32_TEST_RANGE_OF_u16_VALUES_REF() {
    const VALUES: &[u16] = &[
        // insert list:
        0,
        1,
        2,
        4,
        8,
        16,
        32,
        32,
        32,
        256,
        u16::MAX,
    ];

    for &value in VALUES {
        let expected = value as u32;
        let actual = (&value).to_u32();

        assert_eq!(expected, actual);
    }
}

#[test]
fn to_u32_TEST_RANGE_OF_u32_VALUES_REF() {
    const VALUES: &[u32] = &[
        // insert list:
        0,
        1,
        2,
        4,
        8,
        16,
        32,
        32,
        32,
        256,
        u32::MAX,
    ];

    for &value in VALUES {
        let expected = value;
        let actual = (&value).to_u32();

        assert_eq!(expected, actual);
    }
}

#[test]
fn TEST_RANGE_OF_u32_VALUES_IN_Box() {
    const VALUES: &[u32] = &[
        // insert list:
        0,
        1,
        2,
        4,
        8,
        16,
        32,
        32,
        32,
        256,
        u32::MAX,
    ];

    for &value in VALUES {
        let expected = value;
        let instance = Box::new(value);
        let actual = instance.to_u32();

        assert_eq!(expected, actual);
    }
}

#[test]
fn TEST_RANGE_OF_u32_VALUES_IN_REF_Box() {
    const VALUES: &[u32] = &[
        // insert list:
        0,
        1,
        2,
        4,
        8,
        16,
        32,
        32,
        32,
        256,
        u32::MAX,
    ];

    for &value in VALUES {
        let expected = value;
        let instance = Box::new(value);
        let actual = (&instance).to_u32();

        assert_eq!(expected, actual);
    }
}

#[test]
fn TEST_RANGE_OF_u32_VALUES_IN_Rc() {
    const VALUES: &[u32] = &[
        // insert list:
        0,
        1,
        2,
        4,
        8,
        16,
        32,
        32,
        32,
        256,
        u32::MAX,
    ];

    for &value in VALUES {
        let expected = value;
        let instance = std_rc::Rc::new(value);
        let actual = instance.to_u32();

        assert_eq!(expected, actual);
    }
}

#[test]
fn TEST_RANGE_OF_u32_VALUES_IN_REF_Rc() {
    const VALUES: &[u32] = &[
        // insert list:
        0,
        1,
        2,
        4,
        8,
        16,
        32,
        32,
        32,
        256,
        u32::MAX,
    ];

    for &value in VALUES {
        let expected = value;
        let instance = std_rc::Rc::new(value);
        let actual = (&instance).to_u32();

        assert_eq!(expected, actual);
    }
}
