//! Core of a peer-to-peer network node: the frame codec, the message
//! protocol, and the peer and controller state machines.

mod clock;
pub mod codec;
pub mod decimal;
pub mod frame;
pub mod message;
pub mod network;
pub mod parse;
pub mod wire;

pub use codec::FrameCodec;
pub use frame::Frame;
pub use message::Message;
pub use parse::Parse;
