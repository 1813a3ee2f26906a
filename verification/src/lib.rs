//! Entity registry and dispatch engine of a bridge between script-backed
//! entities and a home-automation hub on a publish/subscribe bus.

pub mod binary_sensor;
pub mod button;
pub mod config;
pub mod discovery;
pub mod error;
pub mod message;
pub mod number;
pub mod publish;
pub mod registry;
pub mod router;
pub mod script;
pub mod sensor;
pub mod state;
pub mod switch;
pub mod text;
pub mod topic;
