//! The physical quantities of a star from its B-V colour index.
//!
//! The library holds every rule of the model: which regression applies to a
//! star, which spectral class and colour a temperature falls in, which power
//! law turns a luminosity into a mass, how a uniform draw is weighted into a
//! colour index or a luminosity class, and how a seed text becomes a random
//! generator. Double-precision numbers pass through it as bit patterns
//! ([`Binary64`]); evaluating the selected formulas is left to the caller.

pub mod binary64;
pub mod classify;
pub mod mass;
pub mod regression;
pub mod sampler;
pub mod seed;
pub mod star;
pub mod text;

pub use crate::binary64::Binary64;
