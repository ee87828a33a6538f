//! A single-peer message endpoint: it may hold one outbound connection and
//! answers inbound messages with an echo reply.
pub mod address;
pub mod endpoint;
pub mod message;
