//! An interactive node picker for Tailscale: the parts that decide.
//!
//! The library reads the listing of the status command into node records
//! (`parser`), keeps the state of the filterable, navigable list of them
//! (`selection`), says what a key does to that state and when the session
//! ends (`input`), and describes the screen to draw for it (`screen`).
//! `config` holds what is kept between sessions and builds the target of
//! the remote login; `text` holds the operations on character sequences
//! that the others share. Running commands, reading keys and drawing are
//! left to the program around the library.

pub mod config;
pub mod input;
pub mod parser;
pub mod record;
pub mod screen;
pub mod selection;
pub mod text;
