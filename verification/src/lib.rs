//! Edits the text fields of other applications in Neovim.
//!
//! A resident host reads the field under the caret, lets Neovim edit its lines in a window of its
//! own, and writes back what was saved. This library holds the host's decisions; the processes,
//! sockets, windows and the system's accessibility interface are driven from outside, by what the
//! library says is to be done next.
//!
//! - [`session`], [`text`], [`clipboard`]: one edit, from the captured lines to the outcome
//! - [`value`], [`protocol`]: what Neovim and the host say to each other
//! - [`policy`], [`shutdown`]: when Neovim may be started, and what the system's messages change
//! - [`server`], [`launch`]: starting Neovim and speaking to it for the first time
//! - [`controller`]: which Neovim there is, and what commands do
//! - [`input`], [`keys`], [`ime`]: what is typed, in Neovim's notation
//! - [`gui`], [`window`]: the editor window
//! - [`logging`]: the log
pub mod clipboard;
pub mod controller;
pub mod gui;
pub mod ime;
pub mod input;
pub mod keys;
pub mod launch;
pub mod logging;
pub mod policy;
pub mod protocol;
pub mod server;
pub mod session;
pub mod shutdown;
pub mod text;
pub mod value;
pub mod window;

pub use clipboard::RegType;
pub use policy::{SpawnCancelled, SpawnPolicy};
pub use protocol::HostEvent;
pub use server::NvimConfig;
pub use session::{Applied, Phase, Session};
