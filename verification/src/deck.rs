//! Builds the full deck of a four-color draw-and-skip card game: two numeric
//! runs per color, three special cards per color twice over, and eight
//! wild cards.
use vstd::prelude::*;

verus! {

/// The four card colors.
#[derive(Eq, PartialEq, Clone, Copy, Debug)]
pub enum Color {
    Red,
    Yellow,
    Green,
    Blue,
}

/// How many cards a draw card makes the next player draw.
#[derive(Debug, Clone, Copy, Eq, PartialEq)]
pub enum DrawSize {
    Two,
    Four,
}

/// What a special card does.
#[derive(Debug, Eq, PartialEq)]
pub enum Action {
    Draw(DrawSize),
    Skip,
    Reverse,
    /// Sets the color, and optionally carries one more action.
    SetColor(Option<Box<Action>>),
}

/// One card: a numbered card of one color, or a special card that may be
/// bound to a color.
#[derive(Debug, Eq, PartialEq)]
pub enum Card {
    Numeric(Color, u16),
    Special(Action, Option<Color>),
}

pub const TOTAL_COLORS: usize = 4;

pub const TOTAL_NUMBERED_CARDS: usize = 9;

pub const TOTAL_NUMBERED_CARDS_FOR_COLOR: usize = 19;

pub const TOTAL_COLORED_NUMERIC_CARDS: usize = TOTAL_NUMBERED_CARDS_FOR_COLOR * TOTAL_COLORS;

pub const TOTAL_SPECIAL_CARDS_FOR_COLOR: usize = 3;

pub const TOTAL_COLORED_SPECIAL_CARDS: usize = TOTAL_SPECIAL_CARDS_FOR_COLOR * TOTAL_COLORS * 2;

pub const TOTAL_WHITE_CARDS: usize = 4 * 2;

pub const TOTAL_SPECIAL_CARDS: usize = TOTAL_COLORED_SPECIAL_CARDS + TOTAL_WHITE_CARDS;

pub const TOTAL_CARDS_IN_FULL_DECK: usize = 108;

/// The four colors, in deck order.
pub open spec fn all_colors() -> Seq<Color> {
    seq![Color::Red, Color::Yellow, Color::Green, Color::Blue]
}

/// One color's numeric run: one zero card, then the numbers one to nine
/// twice over.
pub open spec fn numeric_range_seq(color: Color) -> Seq<Card> {
    Seq::new(
        19,
        |i: int|
            Card::Numeric(
                color,
                (if i <= 9 {
                    i
                } else {
                    i - 9
                }) as u16,
            ),
    )
}

/// The numeric runs of all four colors, in deck order.
pub open spec fn colored_numeric_seq() -> Seq<Card> {
    numeric_range_seq(Color::Red) + numeric_range_seq(Color::Yellow) + numeric_range_seq(
        Color::Green,
    ) + numeric_range_seq(Color::Blue)
}

/// One color's special cards: skip, reverse, draw-two.
pub open spec fn colored_special_seq(color: Color) -> Seq<Card> {
    seq![
        Card::Special(Action::Skip, Some(color)),
        Card::Special(Action::Reverse, Some(color)),
        Card::Special(Action::Draw(DrawSize::Two), Some(color)),
    ]
}

/// One round of every color's special cards.
pub open spec fn colored_special_round() -> Seq<Card> {
    colored_special_seq(Color::Red) + colored_special_seq(Color::Yellow) + colored_special_seq(
        Color::Green,
    ) + colored_special_seq(Color::Blue)
}

/// Both rounds of the colored special cards.
pub open spec fn all_colored_special_seq() -> Seq<Card> {
    colored_special_round() + colored_special_round()
}

/// The eight wild cards: four set-color cards, then four set-color cards
/// that also make the next player draw four.
pub open spec fn white_seq() -> Seq<Card> {
    Seq::new(
        8,
        |i: int|
            if i < 4 {
                Card::Special(Action::SetColor(None), None)
            } else {
                Card::Special(
                    Action::SetColor(Some(Box::new(Action::Draw(DrawSize::Four)))),
                    None,
                )
            },
    )
}

/// All special cards: the wild cards, then the colored special cards.
pub open spec fn special_seq() -> Seq<Card> {
    white_seq() + all_colored_special_seq()
}

/// The full deck: the numeric runs, then the special cards.
pub open spec fn deck_seq() -> Seq<Card> {
    colored_numeric_seq() + special_seq()
}

impl Color {
    /// The four colors, in deck order.
    pub fn all() -> (r: [Color; 4])
        ensures
            r@ == all_colors(),
    {
        let r = [Color::Red, Color::Yellow, Color::Green, Color::Blue];
        proof {
            assert(r@ =~= all_colors());
        }
        r
    }
}

/// Builds one color's numeric run.
pub fn generate_numeric_color_range(color: Color) -> (v: Vec<Card>)
    ensures
        v@ == numeric_range_seq(color),
        v@.len() == TOTAL_NUMBERED_CARDS_FOR_COLOR,
{
    let mut v: Vec<Card> = Vec::new();
    let mut n: u16 = 0;
    while n <= 9
        invariant
            n <= 10,
            v@.len() == n,
            forall|i: int| 0 <= i < v@.len() ==> v@[i] == numeric_range_seq(color)[i],
        decreases 10 - n,
    {
        v.push(Card::Numeric(color, n));
        n += 1;
    }
    let mut m: u16 = 1;
    while m <= 9
        invariant
            1 <= m <= 10,
            v@.len() == 9 + m,
            forall|i: int| 0 <= i < v@.len() ==> v@[i] == numeric_range_seq(color)[i],
        decreases 10 - m,
    {
        v.push(Card::Numeric(color, m));
        m += 1;
    }
    proof {
        assert(v@ =~= numeric_range_seq(color));
    }
    v
}

/// Builds the numeric runs of all four colors.
pub fn generate_colored_numeric_cards() -> (v: Vec<Card>)
    ensures
        v@ == colored_numeric_seq(),
        v@.len() == TOTAL_COLORED_NUMERIC_CARDS,
{
    let mut v = generate_numeric_color_range(Color::Red);
    let mut part = generate_numeric_color_range(Color::Yellow);
    v.append(&mut part);
    let mut part = generate_numeric_color_range(Color::Green);
    v.append(&mut part);
    let mut part = generate_numeric_color_range(Color::Blue);
    v.append(&mut part);
    v
}

/// Builds one color's special cards.
pub fn generate_colored_special_cards(color: Color) -> (v: Vec<Card>)
    ensures
        v@ == colored_special_seq(color),
        v@.len() == TOTAL_SPECIAL_CARDS_FOR_COLOR,
{
    let mut v: Vec<Card> = Vec::new();
    v.push(Card::Special(Action::Skip, Some(color)));
    v.push(Card::Special(Action::Reverse, Some(color)));
    v.push(Card::Special(Action::Draw(DrawSize::Two), Some(color)));
    proof {
        assert(v@ =~= colored_special_seq(color));
    }
    v
}

/// Builds one round of every color's special cards.
fn generate_colored_special_round() -> (v: Vec<Card>)
    ensures
        v@ == colored_special_round(),
{
    let mut v = generate_colored_special_cards(Color::Red);
    let mut part = generate_colored_special_cards(Color::Yellow);
    v.append(&mut part);
    let mut part = generate_colored_special_cards(Color::Green);
    v.append(&mut part);
    let mut part = generate_colored_special_cards(Color::Blue);
    v.append(&mut part);
    v
}

/// Builds both rounds of the colored special cards.
pub fn generate_all_colored_special_cards() -> (v: Vec<Card>)
    ensures
        v@ == all_colored_special_seq(),
        v@.len() == TOTAL_COLORED_SPECIAL_CARDS,
{
    let mut v = generate_colored_special_round();
    let mut part = generate_colored_special_round();
    v.append(&mut part);
    v
}

/// Builds the eight wild cards.
pub fn generate_white_cards() -> (v: Vec<Card>)
    ensures
        v@ == white_seq(),
        v@.len() == TOTAL_WHITE_CARDS,
{
    let mut v: Vec<Card> = Vec::new();
    let mut i: usize = 0;
    while i < 4
        invariant
            i <= 4,
            v@.len() == i,
            forall|j: int| 0 <= j < v@.len() ==> v@[j] == white_seq()[j],
        decreases 4 - i,
    {
        v.push(Card::Special(Action::SetColor(None), None));
        i += 1;
    }
    let mut k: usize = 0;
    while k < 4
        invariant
            k <= 4,
            v@.len() == 4 + k,
            forall|j: int| 0 <= j < v@.len() ==> v@[j] == white_seq()[j],
        decreases 4 - k,
    {
        v.push(
            Card::Special(Action::SetColor(Some(Box::new(Action::Draw(DrawSize::Four)))), None),
        );
        k += 1;
    }
    proof {
        assert(v@ =~= white_seq());
    }
    v
}

/// Builds all special cards.
pub fn generate_special_cards() -> (v: Vec<Card>)
    ensures
        v@ == special_seq(),
        v@.len() == TOTAL_SPECIAL_CARDS,
{
    let mut v = generate_white_cards();
    let mut part = generate_all_colored_special_cards();
    v.append(&mut part);
    v
}

/// Builds the full deck.
pub fn generate_deck() -> (v: Vec<Card>)
    ensures
        v@ == deck_seq(),
        v@.len() == TOTAL_CARDS_IN_FULL_DECK,
{
    let mut v = generate_colored_numeric_cards();
    let mut part = generate_special_cards();
    v.append(&mut part);
    v
}

} // verus!
