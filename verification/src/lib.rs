//! Composes styled text blocks over an optional background and serializes the
//! result into one of many vector or raster output encodings.
//!
//! The library resolves geometry, alignment and style into exact engine
//! configuration values and an ordered paint plan, and drives the post-render
//! format-conversion stage; the text-shaping engine, the 2D drawing contexts
//! and the image codecs stay outside, behind narrow trusted seams.

pub mod codec;
pub mod geometry;
pub mod input;
pub mod paint;
pub mod save;
pub mod style;
