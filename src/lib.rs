//! A length-framed, Noise-encrypted transport carrying a small key-value
//! request/response protocol.
//!
//! Leaves first: `frame` delimits messages on a byte stream; `handshake` runs
//! the Noise XX key agreement over frames; `channel` encrypts application
//! messages with the keys it derived; `pb` holds the protocol's messages;
//! `store` is the shared key-value mapping that serves them; `connection`
//! decides, frame by frame, what one connection does. `noise` holds what the
//! library takes from the `snow` crate.
//!
//! The remaining modules are small exercises in traits and errors:
//! `custom_defer`, `type_convert`, `kv_iterator` and `catch_specified_error`.

pub mod frame;
mod noise;
pub mod handshake;
pub mod channel;
pub mod pb;
pub mod store;
pub mod connection;
pub mod custom_defer;
pub mod type_convert;
pub mod kv_iterator;
pub mod catch_specified_error;
