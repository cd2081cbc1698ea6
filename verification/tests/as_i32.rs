#![allow(non_snake_case)]

use base_traits::AsI32;

#[test]
fn TEST_i32_AsI32() {
    {
        let v: i32 = 12345678;
        let actual = v.as_i32();

        assert_eq!(12345678, actual);
    }

    {
        let v: &i32 = &12345678;
        let actual = v.as_i32();

        assert_eq!(12345678, actual);
    }
}
