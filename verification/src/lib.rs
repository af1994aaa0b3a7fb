//! The subscribe operation of a peer-to-peer contract network, as a verified
//! state machine.
//!
//! A peer that wants to follow the changes of a contract opens a
//! [`op::SubscribeOp`], asks a peer that caches the contract to take it as a
//! subscriber, and tries other peers when one refuses. This crate takes the
//! decisions of that exchange. The node that embeds it looks things up in its
//! ring, sends messages and stores operations: it is told what to do by a
//! [`step::Action`] and reports back with a [`step::Event`].
//!
//! - [`node`]: peers, transactions, contract keys.
//! - [`message`]: the messages that peers exchange.
//! - [`error`]: why an operation fails.
//! - [`op`]: the state of an operation, and how one starts or is picked up.
//! - [`step`]: what the node is asked to do, and what it answers.
//! - [`process`]: how an incoming message advances an operation.
//! - [`request`]: how a request for a subscription leaves the node.
//! - [`run`]: whole runs of an operation against a node's answers.
//! - [`laws`]: what holds of every run.
//! - [`exchange`]: what holds of exchanges between peers.
//! - [`views`]: that a value and its view say the same.
pub mod error;
pub mod exchange;
pub mod laws;
pub mod message;
pub mod node;
pub mod op;
pub mod process;
pub mod request;
pub mod run;
pub mod step;
pub mod views;
