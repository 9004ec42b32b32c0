//! A small terminal-UI composition layer: styled text, bordered widgets,
//! keyboard decoding and the decisions of a fixed-rate frame loop.

use vstd::prelude::*;

pub mod app;
pub mod bridge;
pub mod components;
pub mod event;
pub mod inputs;
pub mod prelude;
pub mod strings;
pub mod ui;

verus! {

/// The terminal that frames are written to.
#[derive(Debug)]
pub struct Terminal;

} // verus!
