//! Event dispatch and deferred-command core of a native desktop GUI binding.
//!
//! Native window messages are modelled as plain values ([`events::NativeMessage`]);
//! the native side hands them in, and receives back the callback invocations to
//! run and the native work to perform.

pub mod defs;
pub mod error;
pub mod words;
pub mod handles;
pub mod events;
pub mod catalog;
pub mod registry;
pub mod hooks;
pub mod dispatch;
pub mod message_handler;
pub mod window;
pub mod font;
pub mod list_view;
