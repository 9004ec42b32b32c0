//! What can happen to an application between two frames.

use vstd::prelude::*;
use crate::inputs::Key;

verus! {

/// A key press, a request to quit, or a new terminal size in columns and
/// rows.
#[derive(Debug, Clone, Copy, Hash, PartialEq, Eq, Structural)]
pub enum Event {
    Key(Key),
    Quit,
    Resize(u16, u16),
}

} // verus!
