//! Resolution of package and item documentation, with a cache in front of the
//! fetches and two reports derived from a resolved document: usage examples and
//! type relationships.
//!
//! The library performs no I/O and converts no page itself. A caller asks it
//! what to fetch and what to convert into Markdown, does so, and hands the
//! outcome back.

pub mod cache;
pub mod decimal;
pub mod examples;
pub mod kind;
pub mod list;
pub mod locator;
pub mod relationships;
pub mod report;
pub mod resolver;
pub mod router;
pub mod text;

pub use cache::{CodeExample, DocCache};
pub use router::CargoDocRouter;
