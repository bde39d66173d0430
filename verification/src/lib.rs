//! Resolution of font variations inside font-container files.
//!
//! A font file either holds a single font or is a collection of several
//! member fonts. When the host's font catalog names a variation that lives
//! in a collection, the index of the member that carries the variation's
//! PostScript name must be recovered from the file itself. This crate
//! parses the container through the `skrifa` font-parsing crate, models
//! what it reads as plain values, and proves that the resolution algorithm
//! returns the first member whose decoded PostScript name equals the
//! target.

pub mod catalog;
pub mod container;
pub mod error;
pub mod names;
pub mod reader;
pub mod resolver;
