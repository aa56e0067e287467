//! Renders trading-card records into text and splits that text into
//! budgeted chunks for size-limited messaging channels.

pub mod card;
pub mod config;
pub mod error;
pub mod filter;
pub mod format;
pub mod image;
pub mod pagination;
pub mod publish;
pub mod text;
pub mod thread;
