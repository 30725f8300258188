//! A library for building IIIF Presentation API v2 manifest documents from a
//! directory listing: an identifier/path codec, the typed document model with
//! URI derivation, and the assembler that turns classified directory entries
//! and sidecar metadata into one manifest.

pub mod iiif;
pub mod source;
pub mod text;
