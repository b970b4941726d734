//! A terminal multiplexer for coding agents.
//!
//! The library is everything the program decides and computes: what a key or a
//! mouse event does, how agents come, go and are looked through, what a frame
//! consists of, and which sequences the host terminal is sent. It does no input or
//! output. The program around it reads events, runs workers and processes, hands
//! what they report to the library and does what the library answers.
//!
//! - [`runtime`] and [`frame`] are the event loop as a state machine, [`startup`]
//!   what surrounds it; their laws stand in [`runtime_laws`].
//! - [`agent`], [`nav`] and [`screen`] are the agents, the navigator over them and
//!   the emulators of their terminals, with the laws of [`nav_laws`].
//! - [`keys`], [`keymap`] and [`dispatch`] turn keys into bytes and commands,
//!   [`mouse`], [`capture`] and [`selection`] turn gestures into focus, links and
//!   copied text.
//! - [`spawn`], [`attach`], [`outcome`], [`fuzzy`] and [`meta`] follow the workers
//!   that bring up agents, search directories and find out about agents.
//! - [`paint`], [`render`], [`render_pane`], [`help`], [`failure`], [`label`] and
//!   [`style`] say what is drawn, with the laws of [`render_laws`]; [`layout`] and
//!   [`geometry`] say where, [`term`] and [`text`] with which characters.

pub mod agent;
pub mod attach;
pub mod capture;
pub mod dispatch;
pub mod failure;
pub mod frame;
pub mod fuzzy;
pub mod geometry;
pub mod help;
pub mod identity_laws;
pub mod keymap;
pub mod keys;
pub mod label;
pub mod layout;
pub mod meta;
pub mod mouse;
pub mod nav;
pub mod nav_laws;
pub mod outcome;
pub mod paint;
pub mod render;
pub mod render_laws;
pub mod render_pane;
pub mod runtime;
pub mod runtime_laws;
pub mod screen;
pub mod selection;
pub mod spawn;
pub mod startup;
pub mod style;
pub mod term;
pub mod text;
