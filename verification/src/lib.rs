//! Core of a desktop windowing shim: the window lifecycle and event-dispatch
//! state machine that adapts a native toolkit's callback model to an abstract
//! window-handler interface.
//!
//! The crate models the mutable window state (scale, invalidated region,
//! idle and deferred queues, key-repeat tracking), the translation of native
//! input into normalized events, the menu tree and its conversion to a native
//! menu model, and the pure key/code lookup tables. All platform calls stay
//! outside; this crate makes every decision on plain values.

pub mod clipboard;
pub mod cursor;
pub mod event;
pub mod geom;
pub mod keys;
pub mod menu;
pub mod region;
pub mod window;

use vstd::prelude::*;

verus! {

/// Errors surfaced to callers of the windowing shim.
#[derive(Clone, Copy, PartialEq, Eq, Structural, Debug)]
pub enum ShellError {
    /// The builder was asked to build a window without a handler.
    HandlerMissing,
    /// The window behind a handle has already been destroyed.
    WindowDropped,
}

} // verus!
