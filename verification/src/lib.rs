//! Unit-safe wrapper type for numeric data.
//!
//! A [`Quantity`] carries a raw storage value together with its [`Scale`]
//! (a prime-factorised exponent vector `2^p2 * 3^p3 * 5^p5 * pi^pi`) and its
//! [`Dimension`] (an exponent vector over mass, length, time, current,
//! temperature, amount, luminosity and angle).  The arithmetic in this crate
//! combines those exponent vectors exactly as the physical quantities combine,
//! refuses (by precondition) to add, subtract or take remainders of quantities
//! whose units differ, and reports such quantities as not comparable.

mod arithmetic;
mod compare;
mod exponents;
pub mod laws;
mod lossy;
mod quantity;
mod std_from;

pub use exponents::{Dimension, Scale};
pub use lossy::LossyFrom;
pub use quantity::Quantity;
