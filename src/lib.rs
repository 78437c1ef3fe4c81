//! Dynamic topic management for a publish/subscribe messaging broker.
//!
//! Publishers ask the service for a fresh topic, subscribers subscribe to it directly on the
//! broker, and the service tracks subscriber interest on every topic so that it can tell the
//! owning publisher when to start, stop or tear down its data production.
pub mod config_utils;
pub mod load_config;
pub mod pubsub_connector;
pub mod pubsub_impl;
pub mod topic_laws;
pub mod topic_manager;
pub mod topic_registry;
