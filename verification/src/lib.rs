//! Three ownership-flavored passes over a fixed three-channel record.
//!
//! A [`pixel::Pixel`] holds three signed 8-bit channels in a fixed order.
//! The library offers one traversal per access mode: an owning pass that
//! consumes the record ([`owned`]), a read-only pass over a shared borrow
//! ([`shared`]), and a mutating pass over an exclusive borrow
//! ([`exclusive`]). Each pass yields the channels in the fixed order and
//! then exhausts permanently.

pub mod exclusive;
pub mod laws;
pub mod owned;
pub mod pixel;
pub mod shared;
