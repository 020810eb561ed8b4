//! The option parser: matching a raw line of chat text against the fixed
//! `.window` command grammar and extracting validated animation options.
//!
//! The grammar is
//! `.window <delay> <window_size> <bracket_style> '<background>' "<text>"`:
//! three space-separated tokens after the command word, then a single
//! character in single quotes and one or more characters in double quotes,
//! the double quote closing the line.
use vstd::prelude::*;

use crate::errors::WindowError;
use crate::scan::{all_digits, digits_val, find_char, find_char_from, parse_u64};
use crate::style::{parse_style, BracketStyle};

verus! {

/// The validated parameters of one animation run.
#[derive(Debug)]
pub struct TextWindowOptions {
    /// The text that bounces inside the window, taken verbatim from the
    /// double-quoted field.
    pub text: String,
    /// How the window's delimiters are rendered.
    pub style: BracketStyle,
    /// The character the padding on both sides of the text is made of.
    pub background: char,
    /// The interior width of the window, excluding the two delimiters.
    pub window_size: u64,
    /// Milliseconds between two frames.
    pub delay: u64,
}

/// What a command reports about itself to the surrounding dispatch.
#[derive(Debug)]
pub struct CommandInfo<'a> {
    pub name: &'a str,
}

/// The bouncing-window command: grammar check and option extraction.
pub struct TextWindow;

/// The line starts with the command word and its trailing space.
pub open spec fn cmd_prefix_at(s: Seq<char>) -> bool {
    &&& s.len() >= 8
    &&& s[0] == '.'
    &&& s[1] == 'w'
    &&& s[2] == 'i'
    &&& s[3] == 'n'
    &&& s[4] == 'd'
    &&& s[5] == 'o'
    &&& s[6] == 'w'
    &&& s[7] == ' '
}

/// The space closing the delay token.
pub open spec fn sp1(s: Seq<char>) -> int {
    find_char(s, 8, ' ')
}

/// The space closing the window-size token.
pub open spec fn sp2(s: Seq<char>) -> int {
    find_char(s, sp1(s) + 1, ' ')
}

/// The space closing the style token.
pub open spec fn sp3(s: Seq<char>) -> int {
    find_char(s, sp2(s) + 1, ' ')
}

/// The line fits the command grammar: command word, three non-empty
/// space-separated tokens, a single-quoted character, and a non-empty
/// double-quoted text closing the line.
pub open spec fn has_shape(s: Seq<char>) -> bool {
    &&& cmd_prefix_at(s)
    &&& 8 < sp1(s) < s.len()
    &&& sp1(s) + 1 < sp2(s) < s.len()
    &&& sp2(s) + 1 < sp3(s) < s.len()
    &&& sp3(s) + 7 < s.len()
    &&& s[sp3(s) + 1] == '\''
    &&& s[sp3(s) + 3] == '\''
    &&& s[sp3(s) + 4] == ' '
    &&& s[sp3(s) + 5] == '"'
    &&& s[s.len() - 1] == '"'
}

/// The delay field, as written.
pub open spec fn delay_token(s: Seq<char>) -> Seq<char> {
    s.subrange(8, sp1(s))
}

/// The window-size field, as written.
pub open spec fn wsize_token(s: Seq<char>) -> Seq<char> {
    s.subrange(sp1(s) + 1, sp2(s))
}

/// The bracket-style field, as written.
pub open spec fn style_token(s: Seq<char>) -> Seq<char> {
    s.subrange(sp2(s) + 1, sp3(s))
}

/// The single character between the single quotes.
pub open spec fn background_of(s: Seq<char>) -> char {
    s[sp3(s) + 2]
}

/// The characters between the double quotes, verbatim.
pub open spec fn text_of(s: Seq<char>) -> Seq<char> {
    s.subrange(sp3(s) + 6, s.len() - 1)
}

/// The token is a decimal literal whose value fits in a `u64`.
pub open spec fn valid_number(t: Seq<char>) -> bool {
    t.len() > 0 && all_digits(t) && digits_val(t) <= u64::MAX
}

/// Scans the line for the grammar shape and returns the positions of the
/// three token-closing spaces.
fn scan_shape(text: &str) -> (r: Option<(usize, usize, usize)>)
    ensures
        match r {
            Some((i1, i2, i3)) => {
                &&& has_shape(text@)
                &&& i1 as int == sp1(text@)
                &&& i2 as int == sp2(text@)
                &&& i3 as int == sp3(text@)
            },
            None => !has_shape(text@),
        },
{
    let n = text.unicode_len();
    if n < 8 {
        return None;
    }
    if !(text.get_char(0) == '.' && text.get_char(1) == 'w' && text.get_char(2) == 'i'
        && text.get_char(3) == 'n' && text.get_char(4) == 'd' && text.get_char(5) == 'o'
        && text.get_char(6) == 'w' && text.get_char(7) == ' ') {
        return None;
    }
    let i1 = find_char_from(text, 8, ' ');
    if i1 == n || i1 == 8 {
        return None;
    }
    let i2 = find_char_from(text, i1 + 1, ' ');
    if i2 == n || i2 == i1 + 1 {
        return None;
    }
    let i3 = find_char_from(text, i2 + 1, ' ');
    if i3 == n || i3 == i2 + 1 {
        return None;
    }
    if n - i3 < 8 {
        return None;
    }
    if !(text.get_char(i3 + 1) == '\'' && text.get_char(i3 + 3) == '\'' && text.get_char(i3 + 4)
        == ' ' && text.get_char(i3 + 5) == '"' && text.get_char(n - 1) == '"') {
        return None;
    }
    Some((i1, i2, i3))
}

impl TextWindow {
    /// Whether the line fits the command grammar; a cheap, side-effect-free
    /// check for the surrounding dispatch.
    pub fn matches(&self, text: &str) -> (r: bool)
        ensures
            r == has_shape(text@),
    {
        scan_shape(text).is_some()
    }

    /// Extracts validated animation options from the line: `NoMatch` when
    /// the grammar does not fit, `UnknownBracketStyle` when the style token
    /// is outside the fixed set, `InvalidNumber` when the delay or the
    /// window size is not a decimal literal fitting a `u64`.
    pub fn fetch_options(text: &str) -> (r: Result<TextWindowOptions, WindowError>)
        ensures
            (r matches Ok(_)) <==> {
                &&& has_shape(text@)
                &&& parse_style(style_token(text@)) matches Ok(_)
                &&& valid_number(delay_token(text@))
                &&& valid_number(wsize_token(text@))
            },
            match r {
                Ok(o) => {
                    &&& parse_style(style_token(text@)) == Ok::<BracketStyle, WindowError>(o.style)
                    &&& o.delay as int == digits_val(delay_token(text@))
                    &&& o.window_size as int == digits_val(wsize_token(text@))
                    &&& o.background == background_of(text@)
                    &&& o.text@ == text_of(text@)
                },
                Err(e) => {
                    if !has_shape(text@) {
                        e == WindowError::NoMatch
                    } else if parse_style(style_token(text@)) matches Err(_) {
                        e == WindowError::UnknownBracketStyle
                    } else {
                        e == WindowError::InvalidNumber
                    }
                },
            },
    {
        let (i1, i2, i3) = match scan_shape(text) {
            Some(t) => t,
            None => {
                return Err(WindowError::NoMatch);
            },
        };
        let n = text.unicode_len();
        let style_str = text.substring_char(i2 + 1, i3);
        let style = match BracketStyle::parse(style_str) {
            Ok(st) => st,
            Err(_) => {
                return Err(WindowError::UnknownBracketStyle);
            },
        };
        let delay_str = text.substring_char(8, i1);
        let delay = match parse_u64(delay_str) {
            Some(v) => v,
            None => {
                return Err(WindowError::InvalidNumber);
            },
        };
        let wsize_str = text.substring_char(i1 + 1, i2);
        let window_size = match parse_u64(wsize_str) {
            Some(v) => v,
            None => {
                return Err(WindowError::InvalidNumber);
            },
        };
        let background = text.get_char(i3 + 2);
        let text_field = text.substring_char(i3 + 6, n - 1).to_owned();
        Ok(TextWindowOptions { text: text_field, style, background, window_size, delay })
    }

    /// What this command reports about itself.
    pub fn report(&self) -> (r: CommandInfo<'static>)
        ensures
            r.name@ == "text_window"@,
    {
        CommandInfo { name: "text_window" }
    }
}

} // verus!
