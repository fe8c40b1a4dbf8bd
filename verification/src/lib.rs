//! Verified core of cloudman: the data model of EC2 instances, the text
//! rules used to filter and search them, and the state machines behind the
//! terminal views (table, bottom bar, search overlay, key log, console log).
pub mod text;
pub mod instance;
pub mod views;
pub mod columns;
pub mod selection;
pub mod state;
pub mod details;
pub mod actions;
pub mod controller;
pub mod laws;
