//! Icon intake for the bookshelf design system.
//!
//! An SVG icon is read as a stream of XML events, every unqualified `fill`
//! attribute is set to `currentColor`, and the stream is written out again,
//! indented. The destination of the icon inside the bookshelf package is
//! derived from the icon's category and file name.

pub mod commands;
pub mod destination;
pub mod environment;
pub mod event;
pub mod icon;
pub mod reader;
pub mod rewrite;
pub mod writer;
