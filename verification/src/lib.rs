//! The decision logic of a URL shortener: validation and slug allocation on the
//! write path, resolution through a local cache on the read path, the filler that
//! keeps the slug pool topped up, and QR images of short links.
//!
//! The stores are never reached from here. A service hands each reply of a store
//! to the function that decides what follows, and carries out what that function
//! names. [`model`] describes the stores as mathematical values, and [`laws`]
//! proves what holds of the services when they run against stores that behave so.

pub mod filler;
pub mod http;
pub mod laws;
pub mod link;
pub mod model;
pub mod qr;
pub mod reader;
pub mod slug;
pub mod store;
pub mod text;
pub mod writer;
