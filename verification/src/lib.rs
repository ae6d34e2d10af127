//! Pane selection for a host editor: hint assignment, overlay geometry,
//! candidate filtering, and the keystroke-resolution state machines.

use vstd::prelude::*;

pub mod geometry;
pub mod text;
pub mod chars;
pub mod hint;
pub mod opts;
pub mod filter;
pub mod draw;
pub mod pick;

pub use hint::Hint;
pub use opts::{Bo, FilterRules, Multiselect, OpenOverOpts, OpenRelativeOpts, OpenSplitOpts, Opts};

verus! {

/// An opaque handle to a host-owned pane. The library never creates or
/// destroys panes; it only compares handles and plans actions on them.
#[derive(Clone, Copy, Debug, PartialEq, Eq, Structural)]
pub struct PaneId(pub i32);

/// An opaque handle to a transient overlay surface the host created for one
/// hint. Every surface a drawer records is closed again when it is cleared.
#[derive(Clone, Copy, Debug, PartialEq, Eq, Structural)]
pub struct SurfaceId(pub i32);

/// An opaque handle to a host-owned buffer, as far as the library needs it:
/// only to plan which buffer is assigned to which pane.
#[derive(Clone, Copy, Debug, PartialEq, Eq, Structural)]
pub struct BufferId(pub i32);

} // verus!
