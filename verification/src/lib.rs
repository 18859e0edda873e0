//! Verified core of an inverter monitor that reads registers over Modbus RTU
//! and serves them, with a rolling history, over HTTP.

pub mod frame;
pub mod mock;
pub mod text;
pub mod number;
pub mod config;
pub mod history;
pub mod http;
pub mod report;
pub mod energy;
pub mod latest;
pub mod persistence;
pub mod registers;
pub mod poller;
pub mod reader;
