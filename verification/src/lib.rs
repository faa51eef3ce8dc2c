//! A typed client for the tmux terminal multiplexer: command construction,
//! identities, format catalogs, option and snapshot decoding.

pub mod advanced;
pub mod buffer;
pub mod command;
pub mod error;
pub mod formats;
pub mod numeric;
pub mod options;
pub mod pane;
pub mod scan;
pub mod server;
pub mod snapshot;
pub mod strmap;
pub mod text;
pub mod version;
pub mod target;
pub mod window;
pub mod session;
pub mod client;
pub mod query;
pub mod discovery;
pub mod retry;
