//! The core of a terminal browser for a version-control repository: the
//! records that the tool's text output is decoded into, and the stack of
//! screens that a user moves through.
//!
//! - [`text`]: lines, fields, trimming and searching in text.
//! - [`record`]: commits and file contents.
//! - [`query`]: what is asked of the tool, and with which arguments.
//! - [`gateway`]: how the tool's output is decoded, and what a failure
//!   degrades to.
//! - [`screen`]: the screens and the data each one holds.
//! - [`event`]: the user's events, and what the stack asks for in return.
//! - [`model`]: the rules by which the stack changes, and what follows from
//!   them.
//! - [`navigation`]: the stack itself.
//! - [`projection`]: what each screen shows.
//! - [`widget`]: a screen's list as the widget that paints it.

pub mod event;
pub mod gateway;
pub mod model;
pub mod navigation;
pub mod projection;
pub mod query;
pub mod record;
pub mod screen;
pub mod text;
pub mod widget;
