//! Support library for the Surge configuration sync tools: the text rules
//! of synced files, the fixed source tables, and the planning of a sync run.
pub mod text;
pub mod rule_text;
pub mod strip_laws;
pub mod naming;
pub mod header;
pub mod sync;
pub mod rules;
pub mod modules;
pub mod icons;
pub mod log;
pub mod fetch;
pub mod banner_laws;
