//! Automated enrollment into capacity-limited course sections.
//!
//! The crate holds the decisions of the enrollment race engine, of the
//! request relay, of the session client and of the session state machine.
//! Every function carries a contract over a mathematical model of its data;
//! network traffic and timers belong to the caller.
//!
//! - `model`, `error`: the data of the portal and of a run, and the errors.
//! - `state`: the session and the steps of the workflow.
//! - `client`: what the portal's answers mean for the session.
//! - `outcome`, `engine`: how an attempt is classified, and the run that the
//!   workers share.
//! - `trace`: what holds of every interleaving of the workers.
//! - `query`, `relay`, `json`: the relay's requests and answers.
//! - `toast`: notices to the student.

pub mod text;
pub mod error;
pub mod model;
pub mod state;
pub mod outcome;
pub mod engine;
pub mod trace;
pub mod query;
pub mod json;
pub mod relay;
pub mod client;
pub mod toast;
