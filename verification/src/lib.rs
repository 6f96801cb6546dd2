//! Flamingo agent library: the decisions, text and bookkeeping of the agent, with every OS
//! call left to the program that drives it.

pub mod agent;
pub mod app;
pub mod calendar;
pub mod child;
pub mod cli;
pub mod config;
pub mod cycle;
pub mod directive;
pub mod laws;
pub mod logging;
pub mod metrics;
pub mod paths;
pub mod platform;
pub mod rotation;
pub mod service;
pub mod span;
pub mod text;
