//! In-memory store for proxy connection profiles and traffic-routing rules,
//! together with the decisions of the system-tray event router.
//!
//! [`config_store::ConfigStore`] and [`rule_store::RuleStore`] hold one
//! collection each and take `&mut self`, so that their contracts can say
//! exactly what every operation returns and changes. Both are specified
//! over the sequence model of [`model`], and [`laws`] proves what follows
//! for every collection. [`shared_store::SharedStore`] puts each of the two
//! behind a lock of its own for callers that share them. [`tray`] maps the
//! signals of the system tray to the actions that the host carries out.

pub mod config;
pub mod config_store;
pub mod laws;
pub mod model;
pub mod rule;
pub mod rule_store;
pub mod shared_store;
pub mod text;
pub mod tray;
