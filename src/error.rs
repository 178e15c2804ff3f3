//! Errors that the library reports.

use vstd::prelude::*;

verus! {

/// Failures that the picker reports to its caller.
#[derive(Debug, Clone, Copy, PartialEq, Eq, Structural)]
pub enum PickerError {
    /// The user's shell is not one whose history file is known.
    UnsupportedShell,
    /// A selection was asked for while the visible list is empty.
    EmptySelection,
}

} // verus!
