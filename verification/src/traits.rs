//! The capability traits, one module each.

pub mod as_i128;
pub mod as_i32;
pub mod as_i64;
pub mod as_isize;
pub mod as_str;
pub mod as_u128;
pub mod as_u32;
pub mod as_u64;
pub mod as_usize;
pub mod infinity;
pub mod integer;
pub mod is_default;
pub mod is_empty;
pub mod is_infinity;
pub mod is_nan;
pub mod is_zero;
pub mod len;
pub mod numeric;
pub mod real_type;
pub mod scalar;
mod sealed;
pub mod signed;
pub mod to_i128;
pub mod to_i16;
pub mod to_i32;
pub mod to_i64;
pub mod to_isize;
pub mod to_u128;
pub mod to_u16;
pub mod to_u32;
pub mod to_u64;
pub mod to_usize;
pub mod unsigned;
pub mod zero;
