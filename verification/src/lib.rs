//! Trading signals from a series of market prices.
//!
//! The library decides which samples feed each statistic, which metrics are
//! settled without arithmetic, and which strategy a facade is bound to.
//! Prices pass through it untouched; every metric that it fixes itself is
//! held as the bit pattern of an IEEE 754 double.

pub mod analyzer;
pub mod classical;
pub mod double;
pub mod signal;
pub mod window;
