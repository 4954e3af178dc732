//! A chat-gateway core: a session registry of bounded event channels, a
//! streaming relay that reshapes backend fragments into wire events, and the
//! request/configuration rules around them.

pub mod apitype;
pub mod auth;
pub mod channel;
pub mod config;
pub mod event;
pub mod registry;
pub mod gateway;
pub mod hits;
pub mod json;
pub mod keygen;
pub mod llm;
pub mod relay;
pub mod strutil;
pub mod writer;
