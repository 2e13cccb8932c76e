use vstd::prelude::*;

pub mod automation;
pub mod binding;
pub mod bootstrap;
pub mod catalog;
pub mod chart;
pub mod command;
pub mod configuration;
pub mod copy;
pub mod decimal;
pub mod edit_buffer;
pub mod demo;
pub mod entry;
pub mod ids;
pub mod laws;
pub mod intents;
pub mod lifecycle;
pub mod projection;
pub mod query;
pub mod read_model;
pub mod resource;
pub mod scene;
pub mod session;
pub mod shortcuts;
pub mod slots;
pub mod time;
pub mod timestamp_order;
pub mod units;
pub mod view;
pub mod workspace;
pub mod workspace_commands;
pub mod validation;

verus! {

} // verus!
