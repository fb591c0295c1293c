//! Renders a directory of nginx configuration templates against a resolved
//! configuration: command-line values override environment values, which
//! override built-in defaults; the resolved values become a render context,
//! and every template in the set is rendered best-effort to a mirrored
//! output path.

pub mod config;
pub mod context;
pub mod decimal;
pub mod paths;
pub mod pipeline;
pub mod report;
