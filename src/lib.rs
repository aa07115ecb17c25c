//! The environment a typst compilation runs in, without any I/O of its own:
//! a closed store of named documents with one entry point, a catalog of fonts
//! that are decoded from their files on first use and kept, and a clock that
//! is read once per compilation.

pub mod text;
pub mod store;
pub mod fonts;
pub mod clock;
pub mod world;
