//! Core of an incremental view-synchronization engine for a conversation UI.
//!
//! The library keeps an ordered list of conversation entries and, per
//! conversation, an ordered timeline of displayable items, both mutated only
//! by applying structural diff operations in arrival order.  Around those
//! containers it provides the bookkeeping that a live client needs: a
//! projection map that provisions each conversation at most once, a selection
//! controller that moves a highlight with wraparound and keeps at most one
//! external subscription, a debounced transient status message, and the
//! command dispatch of the input loop.  All I/O, task scheduling and drawing
//! live outside the library; they hand plain values in and take plain values
//! back.

pub mod device;
pub mod diff;
pub mod dispatch;
pub mod list;
pub mod model;
pub mod projection;
pub mod selection;
pub mod shared_vector;
pub mod status;
pub mod timeline;
