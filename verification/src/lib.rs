//! Retrieval planning and rule-based auditing of device settings.

pub mod audit_laws;
pub mod dump;
pub mod entries;
pub mod ioc;
pub mod namespace;
pub mod rules;
pub mod settings;
pub mod text;
