//! Window orchestration for a desktop notes application.
//!
//! The application has one primary window, which is only ever hidden, and a
//! few transient popups (a command bar, an editor), which exist one at a time
//! and vanish when the user looks elsewhere. This crate holds the rules; it
//! never touches a real window. Whoever embeds it reports what it observes
//! as an [`events::Event`], asks [`events::plan`] what the windowing system
//! has to do about it, has that done, and hands the answer to
//! [`events::handle`].
//!
//! - [`window`], [`chrome`]: the window entity and the look it is built with.
//! - [`operation`]: operations, effects, and the answers of the windowing
//!   system.
//! - [`model`]: the registry as a mathematical value, and its transitions.
//! - [`registry`]: the registry itself.
//! - [`policy`]: what a close request or a lost focus does to a window.
//! - [`tray`], [`hotkey`], [`bridge`]: the event sources and what each of
//!   their events asks for.
//! - [`startup`]: whether the process starts at all.
//! - [`events`]: the events of all sources in one place, and what holds
//!   after every run of them.
//! - [`laws`]: what holds after every operation.

pub mod bridge;
pub mod chrome;
pub mod events;
pub mod hotkey;
pub mod laws;
pub mod model;
pub mod operation;
pub mod policy;
pub mod registry;
pub mod startup;
pub mod text;
pub mod tray;
pub mod window;
