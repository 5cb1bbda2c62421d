//! Colors of three byte channels and an optional alpha channel: parsed from and
//! written as hexadecimal text, and combined with each other and with integer
//! scalars by saturating arithmetic.
use vstd::prelude::*;

pub mod codec;
pub mod color;
pub mod commute;
pub mod ops;
pub mod scalar;

pub use codec::ParseHexColorError;
pub use color::HexColor;
pub use ops::alpha_op;
pub use scalar::Scalar;
