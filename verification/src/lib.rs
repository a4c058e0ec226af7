//! A verified core for a `head`-style utility: it validates numeric
//! count options, resolves the mutually exclusive line/byte truncation
//! modes, and computes bounded prefixes (first `n` lines or first `n`
//! bytes) of a source's content, together with the per-source headers
//! and diagnostics that frame the output.

pub mod config;
pub mod parse;
pub mod reader;
pub mod render;

pub use config::{Config, ReadType, resolve_config, resolve_files, resolve_mode};
pub use parse::parse_positive_int;
pub use reader::{bytes_output, head_bytes, head_lines};
pub use render::{Fetched, body_bytes, diag_line, header_line, render_all};
