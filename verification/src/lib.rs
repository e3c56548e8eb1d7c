//! Turn synchronisation for a chess game between two players, each of whom
//! sits either at this machine or at the other end of a network link.
//!
//! The crate holds the packets that travel on the link and their codec, the
//! queue that decouples arrival from consumption, the handshake that assigns
//! the colours, the board behind which the rules engine works, and the
//! coordinator that decides on every tick whose move is accepted.

pub mod packet;
pub mod players;
pub mod negotiation;
pub mod board;
pub mod codec;
pub mod queue;
pub mod coordinator;
pub mod session;
pub mod cli;
