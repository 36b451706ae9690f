//! Requests the desktop integration hands to the main thread, which owns the
//! windows.

use vstd::prelude::*;

verus! {

/// A window the main thread is asked to open.
#[derive(Debug, Clone, Copy, PartialEq, Eq)]
pub enum WindowRequest {
    Settings,
    History,
}

} // verus!
