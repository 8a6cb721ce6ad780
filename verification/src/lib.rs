//! A verified core for a full-screen terminal directory browser.
//!
//! The library models the browser's navigation state machine: the listing
//! of the current directory (parent marker first, children sorted by
//! name), the pagination and selection indices that address it, the
//! transitions that keys and filesystem events drive, and the projection
//! of one frame for a render collaborator. Terminal drawing, key polling,
//! filesystem access and editor launching are the host's business; the
//! core exchanges plain values with it.

pub mod listing;
pub mod render;
pub mod state;
