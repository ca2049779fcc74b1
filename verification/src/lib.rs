//! Conversion of the images held in an ICO container into standalone raster
//! files.
//!
//! A run has two parts. The resolver ([`selection`]) turns a request for
//! one entry, a list, a range or all entries into the indices to convert. The
//! pipeline ([`pipeline`]) decodes one entry and writes its image in the
//! target format ([`format`], [`config`]). [`run`] puts the two together and
//! names the files ([`output`]).
//!
//! Decoding and encoding are the work of the `ico` and `image` crates, and
//! TOML that of the `toml` crate. What is taken for granted of them stands in
//! [`codec`] and at the head of [`config`], [`output`] and [`text`];
//! everything else is proved.

pub mod codec;
pub mod config;
pub mod decimal;
pub mod format;
pub mod output;
pub mod pipeline;
pub mod run;
pub mod selection;
pub mod text;
