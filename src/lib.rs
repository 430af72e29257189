//! Core of a chat moderation agent: a two-lane work queue, a batching
//! classifier pipeline, a network-failure watchdog and the decisions of the
//! single-instance guard.
pub mod config;
pub mod domain;
pub mod guard;
pub mod inference;
pub mod inbound;
pub mod processor;
pub mod queue;
pub mod text;
pub mod updater;
pub mod watchdog;
pub mod web_content;
