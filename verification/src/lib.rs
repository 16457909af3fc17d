//! The logic of a desktop application launcher, kept free of I/O.
//!
//! The launcher talks to a search service that runs as a child process. This
//! crate holds the rules of that conversation: which request becomes which
//! message, when a child process has to be started or stopped, and which
//! events the front end gets to see. It also holds the rules by which the
//! front end reacts to those events. Spawning processes, reading pipes and
//! drawing windows is left to the program that embeds the crate.
//!
//! * [`subscriptions::launcher`] is the session with the search service:
//!   its supervisor, the relay of its responses, the channel to the front
//!   end, and what holds of every run of the three together.
//! * [`app`] is the front end that shows its results on a layer surface,
//!   with a context menu and a view of the open windows.
//! * [`components::app`] is the front end with a plain list of ten results,
//!   which starts applications itself.
//! * [`application`], [`window`], [`desktop_entry_data`] and [`utils`] serve
//!   the front end that keeps one session for as long as it runs and may
//!   itself run in a sandbox.
//! * [`subscriptions::toggle_dbus`] is the listener for the toggle call on
//!   the session bus.
//! * [`protocol`] holds the values that the search service answers with,
//!   [`process`] the programs that the launcher starts, [`text`] some
//!   questions about strings, and [`config`] the build profile.

pub mod app;
pub mod application;
pub mod components;
pub mod config;
pub mod desktop_entry_data;
pub mod process;
pub mod protocol;
pub mod subscriptions;
pub mod text;
pub mod utils;
pub mod window;
