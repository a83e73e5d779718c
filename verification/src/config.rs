//! Process configuration: the settings that each binary reads at start-up,
//! and the defaults that apply where a setting is absent.

pub mod api;
pub mod database;
pub mod gateway;
pub mod worker;
