//! Verified core of a multi-user photo library backend.

pub mod assembler;
pub mod auth;
pub mod browse;
pub mod bus;
pub mod catalog;
pub mod config;
pub mod digest;
pub mod faces;
pub mod gateway;
pub mod ids;
pub mod listing;
pub mod logs;
pub mod metadata;
pub mod pages;
pub mod preview;
pub mod search;
pub mod status;
pub mod sync;
pub mod text;
pub mod upload;
