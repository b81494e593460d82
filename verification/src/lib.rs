//! Verified core of a small testing workshop: decimal numbers, a retrying
//! client driver, a squaring function with a logger, an HTTP status matcher,
//! a configuration-file reader, a JSON request matcher and the decisions of
//! a database-container launcher.

pub mod decimal;
pub mod launcher;
pub mod http_match;
pub mod status_matcher;
pub mod retry;
pub mod logging;
pub mod cli_config;
