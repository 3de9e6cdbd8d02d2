//! Verified core of the TCGLense command-line client.
use vstd::prelude::*;

pub mod client;
pub mod commands;
pub mod config;
pub mod models;
pub mod output;
pub mod text;
pub mod tui;
pub mod update;
pub mod weblogin;

verus! {

} // verus!
