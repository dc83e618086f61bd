//! Validation, derivation and naming rules of an image upscaling service.
//!
//! One submission is a body of raw image bytes together with its declared
//! media type. The library decides whether the submission is acceptable,
//! computes its content fingerprint, derives the fixed set of
//! block-replicated variants, names each variant by content, and collapses
//! the outcomes of the five stores into one result.

pub mod dimension;
pub mod error;
pub mod format;
pub mod hash;
pub mod raster;
pub mod submission;
pub mod text;
pub mod upload;
