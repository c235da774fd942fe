//! The core of a graphical user interface for Neovim: what the interface knows,
//! how it changes with each event from Neovim, and what is to be done on screen.
//!
//! Nothing in this crate draws or talks to Neovim. Each event is answered with
//! a list of actions for the widgets, and, where the next decision depends on
//! something that only the widgets know, with a question to put to them. What
//! comes of each event and each answer is written down in [`model`], which the
//! code in [`state`] is proved to follow; what is so at all times is proved in
//! [`laws`] and [`event_laws`], and what is seen of each event in
//! [`outcome_laws`].

pub mod action;
pub mod color;
pub mod event;
pub mod event_laws;
pub mod grids;
pub mod hl_defs;
pub mod input;
pub mod laws;
pub mod model;
pub mod outcome_laws;
pub mod request;
pub mod state;
pub mod text;
pub mod timer;
pub mod ui;
pub mod window;
