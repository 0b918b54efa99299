//! The verified core of the Parami Centre exam system: the reading of its
//! configuration, the steps of its database connection, the exam's tasks, and
//! the handling of a submitted answer.

pub mod config;
pub mod exam;
pub mod templates;
pub mod connection;
pub mod datetime;
pub mod submission;
