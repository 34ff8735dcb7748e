//! A composable markup-serialization library: build a tree of elements,
//! attributes and text in code, then flatten it, correctly escaped, into text.
//!
//! Every public operation carries a contract over `Seq<char>` models: `escape`
//! is proved to substitute exactly the five reserved characters in one pass,
//! and `render` is proved to produce exactly the serialization that the
//! renderable tree denotes.

pub mod catalog;
pub mod escaping;
pub mod laws;
pub mod markup;
pub mod numerals;
pub mod tuples;

pub use catalog::body;
pub use catalog::br;
pub use catalog::div;
pub use catalog::head;
pub use catalog::html;
pub use catalog::input;
pub use catalog::meta;
pub use catalog::title;
pub use escaping::escape;
pub use markup::Element;
pub use markup::Node;
pub use markup::Render;
pub use markup::RenderError;
pub use markup::doctype;
pub use markup::element;
pub use markup::render;
pub use markup::self_closing_element;
