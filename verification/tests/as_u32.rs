#![allow(non_snake_case)]

use base_traits::AsU32;

#[test]
fn TEST_u32_AsU32() {
    {
        let v: u32 = 12345678;
        let actual = v.as_u32();

        assert_eq!(12345678, actual);
    }

    {
        let v: &u32 = &12345678;
        let actual = v.as_u32();

        assert_eq!(12345678, actual);
    }
}
