//! Native shell logic of a desktop action-item application: the command
//! surface offered to the frontend, the tray and window rules, and the
//! periodic ticker that asks the frontend to check for due items.
use vstd::prelude::*;

pub mod commands;
pub mod events;
pub mod process;
pub mod shell;
pub mod ticker;

verus! {

} // verus!
