//! Bouncing-text window animations.
//!
//! The library renders a short piece of text sliding back and forth inside a
//! fixed-width bracketed window: it generates the ordered frame sequence for
//! one bounce cycle, wraps it in an infinite restartable cycle, parses the
//! `.window` command line into validated animation options, and drives one
//! animation run as a state machine that hands frames to an external sink one
//! at a time.  A card-deck builder for a four-color draw-and-skip game lives
//! beside it.

pub mod cycle;
pub mod deck;
pub mod errors;
pub mod frames;
pub mod options;
pub mod runner;
pub mod scan;
pub mod style;
