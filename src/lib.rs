//! A gossip node that shares NFT metadata records with its peers: the
//! message shapes, the local store, the parsing of operator commands, the
//! responder and the decisions of the dispatch loop.

pub mod model;
pub mod text;
pub mod store;
pub mod command;
pub mod responder;
pub mod peers;
pub mod node;
