//! Keeps one game server running on a cloud provider during the hours that
//! two cron schedules set, and only for as long as players are on it.
//!
//! The library holds the decisions: the lifecycle controller, the
//! provisioning pipeline with its setup sequence and its retries, and the
//! reading of what the providers and services answer. It performs no I/O.
//! Every function that has a request to make returns it as a value, and
//! takes the answer as a value.

pub mod cloud;
pub mod config;
pub mod controller;
pub mod dns;
pub mod error;
pub mod provision;
pub mod rcon;
pub mod schedule;
pub mod setup;
pub mod ssh;
pub mod text;
