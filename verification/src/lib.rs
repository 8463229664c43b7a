//! State core of a terminal dashboard for a fleet of build runners: a
//! time-bounded cache, the command and event protocol of the background
//! worker, filterable lists with a cursor, and the navigation state machine
//! of the two tabs.

pub mod cache;
pub mod text;
pub mod ui;
pub mod api;
pub mod runners;
pub mod config;
pub mod backend;
pub mod runners_tab;
pub mod groups_tab;
pub mod dashboard;
