//! A client engine for the Phoenix channel protocol: events, envelopes,
//! channels with their references, and the decisions of a connection.
pub mod chan;
pub mod decimal;
pub mod engine;
pub mod error;
pub mod event;
pub mod message;
pub mod socket;

pub use chan::Channel;
pub use error::Error;
pub use event::Event;
pub use event::PhoenixEvent;
pub use message::Envelope;
pub use socket::Phoenix;
