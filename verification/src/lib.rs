//! Core of an always-on-screen overlay panel that lives collapsed as a small
//! pill at the top edge of the screen and expands into a larger surface when
//! the pointer hovers near it.
//!
//! The crate holds the decision logic only: the visibility controller
//! ([`panel`]) that owns the collapsed/expanded state and the choreography of
//! a transition, and the pointer tracker ([`tracker`]) that classifies each
//! poll sample against the trigger and occupied zones with debounced
//! hysteresis.  All geometry is carried in one logical (scale-normalized)
//! coordinate space, defined in [`geometry`].  The surrounding process feeds
//! in pointer samples and screen geometry and applies the returned actions to
//! the actual window system.

pub mod geometry;
pub mod panel;
pub mod tracker;
