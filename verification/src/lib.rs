//! Static configuration for a thumbnail-generation subsystem: the file
//! extensions it can convert, grouped by handling strategy, the size and
//! geometry constants it works with, and a typed extension enum with
//! case-insensitive parsing and canonical text rendering.

pub mod casefold;
pub mod consts;
pub mod ext;
pub mod registry;
