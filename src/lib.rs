//! Format-compliance decisions for media files: a per-dimension allow/reject
//! policy, the compliance engine that applies it to one file's observed
//! format, the planner that derives a minimal re-encode, and target lookup.

pub mod config;
pub mod metadata;
pub mod remediation;
pub mod selection;
mod text;
pub mod validation;
