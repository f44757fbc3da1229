//! A single-pass syntax-tree transform for a JSX-flavored language: it walks a
//! parsed module, notes whether JSX element or fragment syntax occurs anywhere
//! in it, and if so prepends one import declaration that binds the factory
//! symbols the JSX desugaring stage needs (`createElement`, `Fragment`) to a
//! configurable module source (default `"react"`).

pub mod ast;
pub mod config;
pub mod transform;
