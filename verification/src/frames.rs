//! Frame generation: the rendering of a single frame and the ordered frame
//! sequence of one full bounce cycle.
use vstd::prelude::*;

use crate::errors::WindowError;
use crate::style::BracketStyle;
use vstd::assert_by_contradiction;

verus! {

/// `n` repetitions of `c` (empty when `n <= 0`).
pub open spec fn repeat_char(c: char, n: int) -> Seq<char> {
    Seq::new(if n >= 0 {
        n as nat
    } else {
        0
    }, |i: int| c)
}

/// The rendered frame for one offset: the opening delimiter, `offset`
/// background characters, the text, background up to the window width, and
/// the closing delimiter.
pub open spec fn frame_chars(
    text: Seq<char>,
    background: char,
    offset: int,
    window_size: int,
    style: BracketStyle,
) -> Seq<char> {
    seq![style.open_char()] + repeat_char(background, offset) + text + repeat_char(
        background,
        window_size - offset - text.len(),
    ) + seq![style.close_char()]
}

/// The largest left offset at which the text still fits the window.
pub open spec fn last_offset(text: Seq<char>, window_size: int) -> int {
    window_size - text.len()
}

/// How many frames one bounce cycle holds: every offset on the way out, and
/// every offset strictly between the endpoints on the way back.
pub open spec fn frame_count(last: int) -> int {
    last + 1 + (if last >= 1 {
        last - 1
    } else {
        0
    })
}

/// The offset shown at position `i` of the cycle: `0` up to `last` on the
/// way out, then `last - 1` down to `1` on the way back.
pub open spec fn offset_at(last: int, i: int) -> int {
    if i <= last {
        i
    } else {
        2 * last - i
    }
}

/// The ordered frame sequence of one full bounce cycle.
pub open spec fn frames_seq(
    text: Seq<char>,
    background: char,
    window_size: int,
    style: BracketStyle,
) -> Seq<Seq<char>> {
    Seq::new(
        frame_count(last_offset(text, window_size)) as nat,
        |i: int|
            frame_chars(
                text,
                background,
                offset_at(last_offset(text, window_size), i),
                window_size,
                style,
            ),
    )
}

/// Every frame of a fitting text is exactly two characters wider than the
/// window.
pub proof fn lemma_frame_chars_len(
    text: Seq<char>,
    background: char,
    offset: int,
    window_size: int,
    style: BracketStyle,
)
    requires
        0 <= offset,
        offset + text.len() <= window_size,
    ensures
        frame_chars(text, background, offset, window_size, style).len() == window_size + 2,
{
}

/// Relies on `String::push`: appends one character at the end of the string.
#[verifier::external_body]
fn push_char(s: &mut String, c: char)
    ensures
        final(s)@ == old(s)@.push(c),
{
    s.push(c);
}

/// Renders the single frame in which the text sits `offset` characters from
/// the window's left edge.
pub fn generate_singular_window(
    text: &str,
    background: char,
    offset: u64,
    window_size: u64,
    bracket_style: BracketStyle,
) -> (r: String)
    requires
        offset + text@.len() <= window_size,
    ensures
        r@ == frame_chars(text@, background, offset as int, window_size as int, bracket_style),
{
    let (open_c, close_c) = bracket_style.delimiters();
    let mut s = String::new();
    push_char(&mut s, open_c);
    proof {
        assert(s@ =~= seq![bracket_style.open_char()] + repeat_char(background, 0));
    }
    let mut i: u64 = 0;
    while i < offset
        invariant
            i <= offset,
            s@ == seq![bracket_style.open_char()] + repeat_char(background, i as int),
        decreases offset - i,
    {
        push_char(&mut s, background);
        i += 1;
        proof {
            assert(s@ =~= seq![bracket_style.open_char()] + repeat_char(background, i as int));
        }
    }
    s.append(text);
    let tl = text.unicode_len() as u64;
    let mut j: u64 = offset + tl;
    while j < window_size
        invariant
            offset + text@.len() <= j <= window_size,
            s@ == seq![bracket_style.open_char()] + repeat_char(background, offset as int) + text@
                + repeat_char(background, j as int - offset as int - text@.len()),
        decreases window_size - j,
    {
        push_char(&mut s, background);
        j += 1;
        proof {
            assert(s@ =~= seq![bracket_style.open_char()] + repeat_char(background, offset as int)
                + text@ + repeat_char(background, j as int - offset as int - text@.len()));
        }
    }
    push_char(&mut s, close_c);
    proof {
        assert(s@ =~= frame_chars(
            text@,
            background,
            offset as int,
            window_size as int,
            bracket_style,
        ));
    }
    s
}

/// Produces the ordered frame sequence of one bounce cycle, or
/// `InvalidWindowSize` when the window is narrower than the text.
pub fn generate_windows(
    text: &str,
    background: char,
    window_size: u64,
    bracket_style: BracketStyle,
) -> (r: Result<Vec<String>, WindowError>)
    ensures
        match r {
            Ok(v) => {
                let fs = frames_seq(text@, background, window_size as int, bracket_style);
                &&& text@.len() <= window_size
                &&& v@.len() == frame_count(last_offset(text@, window_size as int))
                &&& v@.len() == fs.len()
                &&& forall|i: int| 0 <= i < fs.len() ==> v@[i]@ == fs[i]
                &&& forall|i: int| 0 <= i < v@.len() ==> (#[trigger] v@[i])@.len() == window_size
                    + 2
            },
            Err(e) => e == WindowError::InvalidWindowSize && text@.len() > window_size,
        },
{
    let tl = text.unicode_len() as u64;
    if window_size < tl {
        return Err(WindowError::InvalidWindowSize);
    }
    let last = window_size - tl;
    let ghost fs = frames_seq(text@, background, window_size as int, bracket_style);
    let mut frames: Vec<String> = Vec::new();
    frames.push(generate_singular_window(text, background, 0, window_size, bracket_style));
    let mut off: u64 = 0;
    while off < last
        invariant
            0 <= off <= last,
            last == last_offset(text@, window_size as int),
            off + text@.len() <= window_size,
            fs == frames_seq(text@, background, window_size as int, bracket_style),
            frames@.len() == off + 1,
            forall|i: int| 0 <= i < frames@.len() ==> frames@[i]@ == fs[i],
        decreases last - off,
    {
        off += 1;
        frames.push(generate_singular_window(text, background, off, window_size, bracket_style));
    }
    let mut o: u64 = last;
    while o > 1
        invariant
            0 <= o <= last,
            o == last || o >= 1,
            last == last_offset(text@, window_size as int),
            fs == frames_seq(text@, background, window_size as int, bracket_style),
            frames@.len() == last + 1 + (last - o),
            forall|i: int| 0 <= i < frames@.len() ==> frames@[i]@ == fs[i],
        decreases o,
    {
        o -= 1;
        frames.push(generate_singular_window(text, background, o, window_size, bracket_style));
        proof {
            let p = frames@.len() - 1;
            assert(offset_at(last as int, p) == o);
        }
    }
    proof {
        assert(frames@.len() == fs.len());
        assert forall|i: int| 0 <= i < frames@.len() implies (#[trigger] frames@[i])@.len()
            == window_size + 2 by {
            let l = last as int;
            assert(frames@[i]@ == fs[i]);
            assert(fs[i] == frame_chars(text@, background, offset_at(l, i), window_size as int,
                bracket_style));
            assert(0 <= offset_at(l, i) && offset_at(l, i) <= l);
            lemma_frame_chars_len(
                text@,
                background,
                offset_at(l, i),
                window_size as int,
                bracket_style,
            );
        }
    }
    Ok(frames)
}

/// A text whose first `d` characters are the background and which repeats
/// itself at distance `d` is background throughout.
proof fn lemma_text_shift_uniform(text: Seq<char>, background: char, d: int, k: int)
    requires
        1 <= d,
        forall|j: int| 0 <= j < d && j < text.len() ==> text[j] == background,
        forall|j: int| d <= j < text.len() ==> #[trigger] text[j] == text[j - d],
        0 <= k < text.len(),
    ensures
        text[k] == background,
    decreases k,
{
    if k >= d {
        lemma_text_shift_uniform(text, background, d, k - d);
    }
}

/// Frames at different offsets render different strings, as long as some
/// character of the text differs from the background.
#[verifier::rlimit(50)]
proof fn lemma_offset_frames_differ(
    text: Seq<char>,
    background: char,
    a: int,
    b: int,
    window_size: int,
    style: BracketStyle,
)
    requires
        0 <= a < b,
        b + text.len() <= window_size,
        exists|k: int| 0 <= k < text.len() && text[k] != background,
    ensures
        frame_chars(text, background, a, window_size, style) != frame_chars(
            text,
            background,
            b,
            window_size,
            style,
        ),
{
    let fa = frame_chars(text, background, a, window_size, style);
    let fb = frame_chars(text, background, b, window_size, style);
    let d = b - a;
    assert_by_contradiction!(fa != fb, {
        assert forall|j: int| 0 <= j < d && j < text.len() implies text[j] == background by {
            assert(fa[1 + a + j] == text[j]);
            assert(fb[1 + a + j] == background);
        }
        assert forall|j: int| d <= j < text.len() implies #[trigger] text[j] == text[j - d] by {
            assert(fa[1 + a + j] == text[j]);
            assert(fb[1 + b + (j - d)] == text[j - d]);
        }
        let k = choose|k: int| 0 <= k < text.len() && text[k] != background;
        lemma_text_shift_uniform(text, background, d, k);
    });
}

/// No two cyclically adjacent frames of one bounce cycle are equal, as long
/// as the cycle has at least two sliding positions and some character of the
/// text differs from the background.
pub proof fn lemma_no_adjacent_duplicate_frames(
    text: Seq<char>,
    background: char,
    window_size: int,
    style: BracketStyle,
    i: int,
)
    requires
        last_offset(text, window_size) >= 2,
        exists|k: int| 0 <= k < text.len() && text[k] != background,
        0 <= i < frames_seq(text, background, window_size, style).len(),
    ensures
        ({
            let fs = frames_seq(text, background, window_size, style);
            fs[i] != fs[(i + 1) % (fs.len() as int)]
        }),
{
    let fs = frames_seq(text, background, window_size, style);
    let last = last_offset(text, window_size);
    let n = fs.len() as int;
    assert(n == 2 * last);
    let j = (i + 1) % n;
    if i + 1 < n {
        vstd::arithmetic::div_mod::lemma_small_mod((i + 1) as nat, n as nat);
    } else {
        vstd::arithmetic::div_mod::lemma_mod_self_0(n);
    }
    assert(j == if i + 1 < n {
        i + 1
    } else {
        0
    });
    let a = offset_at(last, i);
    let b = offset_at(last, j);
    assert(0 <= a <= last);
    assert(0 <= b <= last);
    assert(a == b + 1 || b == a + 1);
    if a + 1 == b {
        lemma_offset_frames_differ(text, background, a, b, window_size, style);
    } else {
        lemma_offset_frames_differ(text, background, b, a, window_size, style);
    }
}

/// The endpoint frames of the outbound leg are never duplicated within the
/// produced sequence: the flush-left frame stands only at the cycle's first
/// position and the flush-right frame only where the outbound leg ends, as
/// long as some character of the text differs from the background.
pub proof fn lemma_endpoint_frames_not_duplicated(
    text: Seq<char>,
    background: char,
    window_size: int,
    style: BracketStyle,
    i: int,
)
    requires
        text.len() <= window_size,
        exists|k: int| 0 <= k < text.len() && text[k] != background,
        0 <= i < frames_seq(text, background, window_size, style).len(),
    ensures
        ({
            let fs = frames_seq(text, background, window_size, style);
            let last = last_offset(text, window_size);
            &&& (i != 0 ==> fs[i] != fs[0])
            &&& (i != last ==> fs[i] != fs[last])
        }),
{
    let fs = frames_seq(text, background, window_size, style);
    let last = last_offset(text, window_size);
    let a = offset_at(last, i);
    assert(0 <= a <= last);
    if i != 0 {
        assert(a != 0);
        lemma_offset_frames_differ(text, background, 0, a, window_size, style);
    }
    if i != last {
        assert(a != last);
        lemma_offset_frames_differ(text, background, a, last, window_size, style);
    }
}

} // verus!
