//! Terminal session gateway of a browser-facing cloud IDE, and the
//! authentication service beside it: the decisions, the parsers and the
//! bookkeeping, each with its contract.
//!
//! The library does no I/O. Where the outside world is needed, a function
//! hands out an order and takes in what came of it, so that a caller can run
//! the loop: see [`orchestrator`] for the flow that loads a terminal,
//! [`pump`] for the output of a shell, [`tree`] for the walk of the tree
//! view, [`files`] for saving a file, and [`auth_flow`] for the requests of
//! the authentication service.
//!
//! The sessions live in the [`registry`]; [`router`] and [`teardown`] read
//! and change it for the input of a client and for the end of a session.
//! [`shell_rpc`] holds the commands sent to the shell and the parsers of its
//! answers, [`pty`] what is asked of the system for a terminal, and
//! [`config`] the settings of the services. [`auth`] and [`token`] hold the
//! answers and the tokens of the authentication service. [`text`] is the
//! ground that the parsers stand on.

pub mod auth;
pub mod auth_flow;
pub mod clients;
pub mod config;
pub mod error;
pub mod events;
pub mod files;
pub mod orchestrator;
pub mod pty;
pub mod pump;
pub mod registry;
pub mod router;
pub mod shell_rpc;
pub mod teardown;
pub mod text;
pub mod token;
pub mod tree;
