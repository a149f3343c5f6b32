//! Verified core of a two-player Pong game: the scoring rules, the client
//! flow state machine, the wire protocol, the server's match lifecycle and
//! the small client-side decisions that surround them.
pub mod game;
pub mod text;
pub mod fsm;
pub mod input;
pub mod wire;
pub mod proto;
pub mod session;
pub mod network;
pub mod server;
pub mod lobby;
pub mod prediction;
