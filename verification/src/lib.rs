//! Small capability traits, one operation each, that let generic code work
//! alike over the built-in scalar and collection types and over types of the
//! caller's own.
//!
//! There are three families. The conversions (`ToI64`, `AsUSize`, `AsStr`
//! and their like) give a value in another form without loss. The queries
//! (`IsEmpty`, `IsZero`, `Len`, ...) tell something of a value, and the two
//! makers (`Zero`, `Infinity`) build the one value of a type that bears the
//! name. The markers (`Integer`, `Signed`, ...) have no operation: they sort
//! the built-in scalar types, and are closed to other crates.
//!
//! Every trait that takes `&self` is also implemented for `Box<T>` and
//! `Rc<T>`, which hand the call on to the value they hold. Each operation is
//! total: it never fails and never panics.
//!
//! # What an implementation states
//!
//! Beside its operation `op`, each trait has two specification functions.
//! `op_spec` says what the operation gives, as a function of the value alone.
//! `obeys_op_spec` says whether the implementation vouches for that, and the
//! operation promises `obeys_op_spec ==> result == op_spec`. Both have a
//! default, under which nothing is vouched for: the traits are open, and an
//! implementation written outside verified code, which states neither, is
//! taken to promise nothing. Every implementation in this crate vouches for
//! its result, with one kind of exception that [`IsEmpty`] describes.

pub mod std_calls;
pub mod traits;

pub use traits::as_i128::AsI128;
pub use traits::as_i32::AsI32;
pub use traits::as_i64::AsI64;
pub use traits::as_isize::AsISize;
pub use traits::as_str::AsStr;
pub use traits::as_u128::AsU128;
pub use traits::as_u32::AsU32;
pub use traits::as_u64::AsU64;
pub use traits::as_usize::AsUSize;
pub use traits::infinity::Infinity;
pub use traits::integer::Integer;
pub use traits::is_default::IsDefault;
pub use traits::is_empty::IsEmpty;
pub use traits::is_infinity::IsInfinity;
pub use traits::is_nan::IsNAN;
pub use traits::is_zero::IsZero;
pub use traits::len::Len;
pub use traits::numeric::Numeric;
pub use traits::real_type::Real;
pub use traits::scalar::Scalar;
pub use traits::scalar::ScalarType;
pub use traits::signed::Signed;
pub use traits::to_i128::ToI128;
pub use traits::to_i16::ToI16;
pub use traits::to_i32::ToI32;
pub use traits::to_i64::ToI64;
pub use traits::to_isize::ToISize;
pub use traits::to_u128::ToU128;
pub use traits::to_u16::ToU16;
pub use traits::to_u32::ToU32;
pub use traits::to_u64::ToU64;
pub use traits::to_usize::ToUSize;
pub use traits::unsigned::Unsigned;
pub use traits::zero::Zero;
