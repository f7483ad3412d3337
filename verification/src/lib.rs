//! A static site generator: markdown documents in, templated HTML pages out,
//! and the routing rule of a small file server for the result.
//!
//! Everything here is verified. Markdown is parsed by `pulldown-cmark` and
//! the render context is `tera`'s; the few calls into them are the only
//! trusted code, each marked as such where it stands. Rendering a template
//! is left to the caller, since a template can make the engine panic.

pub mod config;
pub mod driver;
pub mod markdown;
pub mod paths;
pub mod pipeline;
pub mod server;
pub mod template;
