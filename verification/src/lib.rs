//! Startup orchestration for a desktop application shell.
//!
//! A host application is composed out of capability plugins (file-system
//! access, native dialogs) and a single setup hook.  The [`builder`] module
//! accumulates plugin descriptors and the hook and validates them into an
//! immutable application; the [`runtime`] module is the bootstrap state
//! machine that decides, one step at a time, what the host must do next
//! (resolve the context, register a plugin, invoke the setup hook, enter the
//! event loop) and how every failure ends the bootstrap.  The [`trace`]
//! module states and proves the properties of whole bootstrap runs: the
//! setup hook is requested at most once and only after every registration,
//! a failed hook keeps the event loop from ever being entered, and the hook
//! that is invoked is exactly the one attached last.
//!
//! The host-side work itself — loading packaged configuration, the plugins'
//! initialization routines, the event loop — is performed outside this
//! crate; the runtime hands out [`runtime::Action`] values and consumes
//! [`runtime::Event`] values describing each outcome.

pub mod builder;
pub mod errors;
pub mod plugin;
pub mod runtime;
pub mod trace;
