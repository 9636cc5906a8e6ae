//! Batch-rename files by applying a regular-expression substitution to each
//! filename.
//!
//! Filenames are handled as raw byte sequences, because a path on the host
//! platform is not guaranteed to be valid text. The [`codec`] module converts
//! between the native-path model and raw bytes losslessly; the [`pattern`]
//! module compiles a match pattern and replaces the first match in a byte
//! string; the [`engine`] module plans each rename, skips a rename of a path
//! to itself, and halts the whole run at the first failure.
//!
//! The rename itself is a non-clobbering operation supplied by the caller:
//! it must fail, not overwrite, when the destination already exists.

pub mod codec;
pub mod engine;
pub mod pattern;
