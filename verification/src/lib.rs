//! Sans-I/O core of a version manager for Dalamud branch releases.
//!
//! The library decides; the caller performs. Every lifecycle operation is a
//! small state machine that, given the reply to its previous request, either
//! names the next request to carry out or finishes with a result.
//!
//! * [`exchange`] is the vocabulary of requests and replies.
//! * [`management`], [`install`] and [`info`] hold the procedures on a
//!   branch installation; [`update`] compares one with its release source.
//! * [`commands`] holds what the command line offers, built from those.
//! * [`sources`] and [`net`] name where releases are published, and
//!   [`storage`] where they are kept.
//! * [`model`] describes what the requests act on, and [`laws`] proves what
//!   the procedures guarantee when they run against it.

pub mod commands;
pub mod exchange;
pub mod info;
pub mod install;
pub mod json;
pub mod laws;
pub mod management;
pub mod model;
pub mod net;
pub mod sources;
pub mod storage;
pub mod text;
pub mod update;
pub mod version_info;
pub mod version_manager;
