//! Recruitment rounds carried by a single chat message: the state codec, the
//! reaction classifier, the participant aggregator, the controller that
//! detects quorum, and the plan for deferred cleanup.

pub mod announce;
pub mod cleanup;
pub mod codec;
pub mod command;
pub mod controller;
pub mod document;
pub mod fragment;
pub mod framing;
pub mod guarantees;
pub mod kind;
pub mod numeral;
pub mod participants;
pub mod platform;
pub mod state;
pub mod text;
