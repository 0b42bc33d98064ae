//! A checkpointed single-threaded actor execution engine.
//!
//! The engine runs message handlers for isolated actors ("canisters") one at
//! a time and decides precisely when an actor's mutable state becomes
//! durable: a handler's working copy of state is committed to the actor's
//! state cell only when the handler crosses the actor boundary with an
//! outbound call, and once more when it returns normally. A purely local
//! suspension never commits, and an uncaught failure discards every mutation
//! made since the invocation's last commit point.
//!
//! The modules, leaves first: [`state_cell`] holds per-actor durable
//! storage; [`action`] and [`failure`] give handlers and outcomes their
//! shape; [`frame`] captures one in-flight invocation; [`checkpoint`] makes
//! the commit decision; [`semantics`] states mathematically what dispatch
//! computes; [`engine`] executes it and is proved to agree; [`inspect`]
//! filters inbound calls; [`laws`] proves the commit/rollback guarantees for
//! arbitrary handlers; [`canisters`] deploys the two demonstration actors;
//! [`http`] answers the HTTP adaptor's requests.

pub mod action;
pub mod canisters;
pub mod checkpoint;
pub mod engine;
pub mod failure;
pub mod frame;
pub mod http;
pub mod inspect;
pub mod laws;
pub mod semantics;
pub mod state_cell;
