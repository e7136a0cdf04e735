//! Window classification and placement rules for a penrose-based window manager:
//! a small predicate language over window properties, an ordered rule table whose
//! first match decides where a new window goes, the size-hint geometry behind the
//! placement actions, and a click-drag state machine for floating windows.
use vstd::prelude::*;

pub mod drag;
pub mod geometry;
pub mod hints;
pub mod query;
pub mod rules;

verus! {

/// Script launched once when the window manager starts.
pub const STARTUP_SCRIPT: &'static str = "/usr/local/scripts/penrose-startup.sh";

/// Height of the status bar, in pixels.
pub const BAR_HEIGHT_PX: u32 = 28;

} // verus!
