//! A small process supervisor: the process table, the launch plan of a
//! service, the pid codec of the self-pipe and the decisions of the event loop.
pub mod comms;
pub mod engine;
pub mod helper;
pub mod ipc;
pub mod log;
pub mod service;
