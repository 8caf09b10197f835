//! Capacity-aware dispatch of due tasks from a shared task store to execution nodes.
//!
//! A cycle of the dispatcher reads one page of task documents, decides for each task whether
//! it is to be run, retried or failed, and gives each ready task to the execution node with
//! the most room. The library decides and writes the requests; sending them is left to the
//! program around it.
//!
//! - [`task`]: task records, their readiness and their owners.
//! - [`kibana`]: execution nodes and the choice among them.
//! - [`ownership`]: the count of tasks that each node holds during a cycle.
//! - [`scheduler`]: the cycle itself, from the answer of a search to the requests to send.
//! - [`config`]: the settings and their defaults.
//! - [`address`], [`request`]: where requests go and what they carry.
//! - [`document`], [`timestamp`], [`decimal`]: JSON documents, points in time and numbers as
//!   the task store writes them.

pub mod address;
pub mod config;
pub mod decimal;
pub mod document;
pub mod kibana;
pub mod ownership;
pub mod request;
pub mod scheduler;
pub mod task;
pub mod timestamp;
