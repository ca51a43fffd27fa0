//! What the pages promise, in terms of what goes in and what comes out.
pub mod activity;
pub mod answers;
pub mod calendar;
pub mod calls;
pub mod charts;
pub mod config;
pub mod drift;
pub mod fleet;
pub mod forms;
pub mod frame;
pub mod grants;
pub mod links;
pub mod origins;
pub mod pages;
pub mod presence;
pub mod protocols;
pub mod replies;
pub mod settings;
pub mod telemetry;
pub mod texts;
pub mod totals;
