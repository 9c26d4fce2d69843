//! Alert reporter / alert manager exchange: wire framing, the alert message
//! builder and the manager's message-type dispatch, with their contracts.

pub mod text;
pub mod frame;
pub mod message;
pub mod builder;
pub mod manager;
pub mod reporter;
