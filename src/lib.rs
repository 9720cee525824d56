//! Radiometric values for a light-transport renderer.
//!
//! Each channel is held as the bit pattern of an IEEE-754 binary32 number,
//! so that the decisions made on spectral values (NaN guards, black tests,
//! dominant-channel magnitude, clamping) are stated and proved over plain
//! integers.
pub mod binary32;

pub mod spectrum;
