//! A small client-side argument router with an HTML template renderer.
//!
//! A URL hash fragment such as `#upper/world` is turned into a token list
//! (a sentinel program name followed by the `/`-separated parts of the
//! fragment) and dispatched to one of a handful of page-rendering actions.
//! Pages are produced by literal string-template substitution.  All string
//! manipulation is verified; handing the rendered markup to the surrounding
//! page is left to the caller.

pub mod greeting;
pub mod html_source_code;
pub mod router;
pub mod text;
