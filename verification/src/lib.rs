//! The verified core of a binding to an HTML rendering engine with a C
//! interface.
//!
//! The engine hands out opaque handles and calls back through function
//! pointers. This crate holds what a binding has to get right around those
//! two facts, and proves it:
//!
//! - [`ownership`] says which wrapper has to destroy a handle. Each resource
//!   has its wrapper type in the module of its name; a wrapper that owns its
//!   handle yields exactly one destroy call when it is released, a wrapper
//!   that borrows it yields none.
//! - [`callback`] names the engine's callback slots and keeps a record of
//!   what was written into them; [`internal`] and [`helpers_internal`] hold
//!   the adapters that turn the arguments of an event into safe values and
//!   call the closure.
//! - [`utf16`] and [`string`] carry text across the boundary and back.
//! - [`platform`] has what the engine asks of its host.
//!
//! The crate makes no call into the engine. The calls that follow from its
//! decisions are values of [`call::NativeCall`]; whoever links the engine
//! performs them.

pub mod app;
pub mod bitmap;
pub mod call;
pub mod callback;
pub mod config;
pub mod format;
pub mod handle;
pub mod helpers_internal;
pub mod internal;
pub mod monitor;
pub mod overlay;
pub mod ownership;
pub mod platform;
pub mod renderer;
pub mod session;
pub mod settings;
pub mod string;
pub mod surface;
pub mod text;
pub mod utf16;
pub mod view;
pub mod window;

pub use crate::app::App;
pub use crate::config::Config;
pub use crate::monitor::Monitor;
pub use crate::overlay::Overlay;
pub use crate::renderer::Renderer;
pub use crate::session::Session;
pub use crate::settings::Settings;
pub use crate::string::ULString;
pub use crate::view::{IntRect, JSCtxGuard, View};
pub use crate::window::{Cursor, Window, WindowFlags};
