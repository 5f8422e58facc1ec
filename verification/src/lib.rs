//! Custodial access control for a contract that holds native coins, fungible
//! tokens and non-fungible tokens on behalf of an administrator.
//!
//! The crate decides who may act, turns a command into the instructions the
//! host runtime is to carry out, and folds the answers of token registries
//! into query results. It executes nothing and reaches no host: the caller
//! reads the roles, puts addresses and questions to the host, and hands the
//! verdicts and answers in as plain values.
//!
//! - [`state`]: the admin, the operator, and the two gates.
//! - [`msg`]: commands, queries and answers.
//! - [`helpers`]: verdicts of the host's identity validation.
//! - [`response`]: instructions and log attributes.
//! - [`contract`]: one handler per command, and the dispatcher.
//! - [`query`]: what to ask for each query, and what to make of the answer.
//! - [`wire`]: registry messages as bytes, encoded by the host's codec.
//! - [`text`]: amounts and lists as the log shows them.
//! - [`error`]: why a command or query is refused.
//! - [`laws`]: what holds of the handlers taken together.

pub mod contract;
pub mod error;
pub mod helpers;
pub mod laws;
pub mod msg;
pub mod query;
pub mod response;
pub mod state;
pub mod text;
pub mod wire;
