//! Verified core of the agent server: request validation, listing
//! pagination, message framing, configuration choices and the task
//! dispatcher's decisions.

pub mod clock;
pub mod text;
pub mod projects;
pub mod listings;
pub mod messaging;
pub mod values;
pub mod dispatch;
pub mod settings;
pub mod users;
pub mod routes;
pub mod tables;
pub mod blocks;
