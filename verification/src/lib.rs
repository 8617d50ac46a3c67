//! Batch conversion of images to WebP: everything that the pipeline decides,
//! and none of its I/O.
//!
//! The caller lists directories, reads and writes files and runs the encoder
//! at the quality asked for. This library says which entries of a directory
//! are images ([`discovery`]), takes one file through the steps of its
//! conversion ([`conversion`]), names the output ([`naming`]), measures what
//! was saved and words the lines to show ([`report`]), and keeps a batch going
//! when a file fails ([`batch`]).
//!
//! Images are decoded by the `image` crate and the encoder is made by the
//! `webp` crate. What is assumed of the two is said where they are declared,
//! in [`decoding`] and [`conversion`]. All else is verified.
pub mod batch;
pub mod conversion;
pub mod decimal;
pub mod decoding;
pub mod discovery;
pub mod error;
pub mod naming;
pub mod report;
