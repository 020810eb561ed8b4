//! The closed set of bracket renderings and its case-insensitive parser.
use vstd::prelude::*;

use crate::errors::WindowError;
use crate::scan::{lemma_seq_ci_eq_same_class, seq_ci_eq, str_ci_eq};

verus! {

/// One of the four ways a frame's delimiters can be rendered.  `Bare` does
/// not omit the delimiters: it renders a NUL character in each place, so a
/// frame keeps its full width.
#[derive(Clone, Copy, Debug, PartialEq, Eq, Structural)]
pub enum BracketStyle {
    Square,
    Squiggly,
    Circle,
    Bare,
}

/// The letters of the token naming the square style.
pub open spec fn square_token() -> Seq<char> {
    seq!['s', 'q', 'u', 'a', 'r', 'e']
}

/// The letters of the token naming the squiggly style.
pub open spec fn squiggly_token() -> Seq<char> {
    seq!['s', 'q', 'u', 'i', 'g', 'g', 'l', 'y']
}

/// The letters of the token naming the circle style.
pub open spec fn circle_token() -> Seq<char> {
    seq!['c', 'i', 'r', 'c', 'l', 'e']
}

/// The letters of the token naming the bare style.
pub open spec fn none_token() -> Seq<char> {
    seq!['n', 'o', 'n', 'e']
}

/// What parsing a style token returns: the style whose name the token
/// matches up to ASCII case, or `UnknownBracketStyle`.
pub open spec fn parse_style(s: Seq<char>) -> Result<BracketStyle, WindowError> {
    if seq_ci_eq(s, square_token()) {
        Ok(BracketStyle::Square)
    } else if seq_ci_eq(s, squiggly_token()) {
        Ok(BracketStyle::Squiggly)
    } else if seq_ci_eq(s, circle_token()) {
        Ok(BracketStyle::Circle)
    } else if seq_ci_eq(s, none_token()) {
        Ok(BracketStyle::Bare)
    } else {
        Err(WindowError::UnknownBracketStyle)
    }
}

impl BracketStyle {
    /// The opening delimiter this style renders.
    pub open spec fn open_char(self) -> char {
        match self {
            BracketStyle::Square => '[',
            BracketStyle::Squiggly => '{',
            BracketStyle::Circle => '(',
            BracketStyle::Bare => '\0',
        }
    }

    /// The closing delimiter this style renders.
    pub open spec fn close_char(self) -> char {
        match self {
            BracketStyle::Square => ']',
            BracketStyle::Squiggly => '}',
            BracketStyle::Circle => ')',
            BracketStyle::Bare => '\0',
        }
    }

    /// The pair of delimiter characters this style renders.
    pub fn delimiters(&self) -> (r: (char, char))
        ensures
            r.0 == self.open_char(),
            r.1 == self.close_char(),
    {
        match self {
            BracketStyle::Square => ('[', ']'),
            BracketStyle::Squiggly => ('{', '}'),
            BracketStyle::Circle => ('(', ')'),
            BracketStyle::Bare => ('\0', '\0'),
        }
    }

    /// Reads a style token, matching the four style names without regard to
    /// ASCII letter case; any other token fails with `UnknownBracketStyle`.
    pub fn parse(s: &str) -> (r: Result<BracketStyle, WindowError>)
        ensures
            r == parse_style(s@),
    {
        proof {
            reveal_strlit("square");
            reveal_strlit("squiggly");
            reveal_strlit("circle");
            reveal_strlit("none");
            assert("square"@ =~= square_token());
            assert("squiggly"@ =~= squiggly_token());
            assert("circle"@ =~= circle_token());
            assert("none"@ =~= none_token());
        }
        if str_ci_eq(s, "square") {
            Ok(BracketStyle::Square)
        } else if str_ci_eq(s, "squiggly") {
            Ok(BracketStyle::Squiggly)
        } else if str_ci_eq(s, "circle") {
            Ok(BracketStyle::Circle)
        } else if str_ci_eq(s, "none") {
            Ok(BracketStyle::Bare)
        } else {
            Err(WindowError::UnknownBracketStyle)
        }
    }
}

/// Parsing a style token is case-insensitive: two tokens that agree up to
/// ASCII letter case parse to the same result.
pub proof fn lemma_parse_style_case_insensitive(s: Seq<char>, t: Seq<char>)
    requires
        seq_ci_eq(s, t),
    ensures
        parse_style(s) == parse_style(t),
{
    lemma_seq_ci_eq_same_class(s, t, square_token());
    lemma_seq_ci_eq_same_class(s, t, squiggly_token());
    lemma_seq_ci_eq_same_class(s, t, circle_token());
    lemma_seq_ci_eq_same_class(s, t, none_token());
}

} // verus!
