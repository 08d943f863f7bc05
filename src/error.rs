//! Errors reported by the registry, the command queue and the templates.

use vstd::prelude::*;

verus! {

/// A native resource or system call failed.
#[derive(Clone, Copy, Debug, PartialEq, Eq, Structural)]
pub enum SystemError {
    /// The message-only window of a registry could not be created.
    UiCreation,
    /// A window could not be created.
    WindowCreation,
    /// A window class could not be registered.
    SystemClassCreation,
    /// A font could not be created.
    FontCreation,
}

#[derive(Clone, Copy, Debug, PartialEq, Eq, Structural)]
pub enum Error {
    /// The logical identifier is already in use.
    KeyExists,
    /// The logical identifier names no known object.
    KeyNotFound,
    /// The native handle already belongs to another object.
    HandleInUse,
    /// No such callback is bound.
    CallbackNotFound,
    /// The object is not the kind of resource required (an icon, a font).
    BadResource,
    /// The parent given is not a window-like control.
    BadParent,
    /// The control and the resource do not belong to the same registry.
    BadUi,
    System(SystemError),
}

} // verus!
