//! The failures the library reports.
use vstd::prelude::*;

verus! {

/// Everything that can go wrong between a raw command line and a running
/// animation.
#[derive(Clone, Copy, Debug, PartialEq, Eq, Structural)]
pub enum WindowError {
    /// The style token is outside the fixed set of bracket styles.
    UnknownBracketStyle,
    /// The raw text does not fit the command grammar at all; dispatch uses
    /// this to decide that the command does not apply.
    NoMatch,
    /// The delay or window-size field is not a decimal literal that fits
    /// an unsigned 64-bit integer.
    InvalidNumber,
    /// The requested window is narrower than the text, so no frame can hold
    /// the text in full.
    InvalidWindowSize,
}

} // verus!
