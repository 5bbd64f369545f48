//! Build-time preprocessing for a desktop application: resolves the packaging
//! mode from one environment value, plans the SQL schema scripts for a fixed
//! table catalog, and minifies stylesheet and script assets in production
//! mode.
//!
//! The crate is pure: it computes what the build should write, as plain
//! values, and leaves reading the environment and touching the file system to
//! the surrounding build program.

pub mod minify;
pub mod mode;
pub mod pipeline;
pub mod schema;
