//! Command-dispatch core of an interactive desktop shell.
//!
//! Named, zero-argument actions are registered once in a
//! [`registry::CommandRegistry`] and invoked later by keybindings, menus or
//! scripts.  Handlers do not run arbitrary code here: each one names an
//! [`handlers::Effect`] that the embedding shell performs — terminating the
//! compositor, sending a query over the [`script::ScriptBridge`] to the
//! scripting engine, launching an interactive text picker, or touching the
//! shared layout tree through a non-blocking lock.

pub mod defaults;
pub mod handlers;
pub mod picker;
pub mod registry;
pub mod script;
pub mod workspace;
