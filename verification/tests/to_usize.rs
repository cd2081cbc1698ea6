#![allow(non_snake_case)]

use base_traits::ToUSize;
use std::rc as std_rc;

struct CustomType {
    value: u64,
}

impl ToUSize for CustomType {
    fn to_usize(&self) -> usize {
        self.value as usize
    }
}

#[test]
fn to_usize_TEST_RANGE_OF_VALUES() {
    const VALUES: &[usize] = &[
        // insert list:
        0,
        1,
        2, 4, 8, 16, 32, 64, 128, 256,
        u32::MAX as usize,
    ];

    for &value in VALUES {
        let expected = value;
        let instance = CustomType { value: value as u64 };
        let actual = instance.to_usize();

        assert_eq!(expected, actual);
    }
}

#[test]
fn TEST_RANGE_OF_usize_VALUES() {
    const VALUES: &[usize] = &[
        // insert list:
        0,
        1,
        2,
        4,
        8,
        16,
        32,
        64,
        128,
        256,
        usize::MAX,
    ];

    for &value in VALUES {
        let expected = value;
        let actual = value.to_usize();

        assert_eq!(expected, actual);
    }
}

#[test]
fn to_usize_TEST_RANGE_OF_u16_VALUES_REF() {
    const VALUES: &[u16] = &[
        // insert list:
        0,
        1,
        2,
        4,
        8,
        16,
        32,
        64,
        128,
        256,
        u16::MAX,
    ];

    for &value in VALUES {
        let expected = value as usize;
        let actual = (&value).to_usize();

        assert_eq!(expected, actual);
    }
}

#[test]
fn to_usize_TEST_RANGE_OF_u32_VALUES_REF() {
    const VALUES: &[u32] = &[
        // insert list:
        0,
        1,
        2,
        4,
        8,
        16,
        32,
        64,
        128,
        256,
        u32::MAX,
    ];

    for &value in VALUES {
        let expected = value as usize;
        let actual = (&value).to_usize();

        assert_eq!(expected, actual);
    }
}

#[test]
fn TEST_RANGE_OF_usize_VALUES_REF() {
    const VALUES: &[usize] = &[
        // insert list:
        0,
        1,
        2,
        4,
        8,
        16,
        32,
        64,
        128,
        256,
        usize::MAX,
    ];

    for &value in VALUES {
        let expected = value;
        let actual = (&value).to_usize();

        assert_eq!(expected, actual);
    }
}

#[test]
fn TEST_RANGE_OF_usize_VALUES_IN_Box() {
    const VALUES: &[usize] = &[
        // insert list:
        0,
        1,
        2,
        4,
        8,
        16,
        32,
        64,
        128,
        256,
        usize::MAX,
    ];

    for &value in VALUES {
        let expected = value;
        let instance = Box::new(value);
        let actual = instance.to_usize();

        assert_eq!(expected, actual);
    }
}

#[test]
fn TEST_RANGE_OF_usize_VALUES_IN_REF_Box() {
    const VALUES: &[usize] = &[
        // insert list:
        0,
        1,
        2,
        4,
        8,
        16,
        32,
        64,
        128,
        256,
        usize::MAX,
    ];

    for &value in VALUES {
        let expected = value;
        let instance = Box::new(value);
        let actual = (&instance).to_usize();

        assert_eq!(expected, actual);
    }
}

#[test]
fn TEST_RANGE_OF_usize_VALUES_IN_Rc() {
    const VALUES: &[usize] = &[
        // insert list:
        0,
        1,
        2,
        4,
        8,
        16,
        32,
        64,
        128,
        256,
        usize::MAX,
    ];

    for &value in VALUES {
        let expected = value;
        let instance = std_rc::Rc::new(value);
        let actual = instance.to_usize();

        assert_eq!(expected, actual);
    }
}

#[test]
fn TEST_RANGE_OF_usize_VALUES_IN_REF_Rc() {
    const VALUES: &[usize] = &[
        // insert list:
        0,
        1,
        2,
        4,
        8,
        16,
        32,
        64,
        128,
        256,
        usize::MAX,
    ];

    for &value in VALUES {
        let expected = value;
        let instance = std_rc::Rc::new(value);
        let actual = (&instance).to_usize();

        assert_eq!(expected, actual);
    }
}
