//! A bridge between a 16-slot locker controller board on a serial line and a
//! publish/subscribe broker: the board's wire protocol, the cached locker state
//! with change detection, and the decisions of the polling, reporting and
//! command tasks.
pub mod command;
pub mod config;
pub mod status;
pub mod message;
pub mod tasks;
