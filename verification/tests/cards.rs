use text_window::deck::{
    generate_all_colored_special_cards, generate_colored_special_cards, generate_deck,
    generate_numeric_color_range, generate_special_cards, generate_white_cards, Action, Card,
    Color, DrawSize, TOTAL_CARDS_IN_FULL_DECK, TOTAL_COLORED_NUMERIC_CARDS,
    TOTAL_COLORED_SPECIAL_CARDS, TOTAL_NUMBERED_CARDS_FOR_COLOR, TOTAL_SPECIAL_CARDS,
    TOTAL_SPECIAL_CARDS_FOR_COLOR, TOTAL_WHITE_CARDS,
};

#[test]
fn constants_are_correct() {
    assert_eq!(
        TOTAL_CARDS_IN_FULL_DECK,
        TOTAL_SPECIAL_CARDS + TOTAL_COLORED_NUMERIC_CARDS
    );
}

#[test]
fn generate_numeric_color_range_works() {
    let blues = generate_numeric_color_range(Color::Blue);
    assert_eq!(blues.len(), TOTAL_NUMBERED_CARDS_FOR_COLOR);
}

#[test]
fn generate_white_cards_works() {
    let white_cards = generate_white_cards();
    assert_eq!(white_cards.len(), TOTAL_WHITE_CARDS);
}

#[test]
fn generate_colored_special_cards_works() {
    let blue_special_cards = generate_colored_special_cards(Color::Blue);
    assert_eq!(blue_special_cards.len(), TOTAL_SPECIAL_CARDS_FOR_COLOR);
}

#[test]
fn generate_all_colored_special_cards_works() {
    let colored_special_cards = generate_all_colored_special_cards();
    assert_eq!(colored_special_cards.len(), TOTAL_COLORED_SPECIAL_CARDS)
}

#[test]
fn generate_special_cards_works() {
    let special_cards = generate_special_cards();
    assert_eq!(special_cards.len(), TOTAL_SPECIAL_CARDS);
}

#[test]
fn generate_entire_deck_works() {
    let deck = generate_deck();
    assert_eq!(deck.len(), TOTAL_CARDS_IN_FULL_DECK);
}

#[test]
fn numeric_range_holds_zero_once() {
    let blues = generate_numeric_color_range(Color::Blue);
    assert_eq!(blues[0], Card::Numeric(Color::Blue, 0));
    assert_eq!(blues[9], Card::Numeric(Color::Blue, 9));
    assert_eq!(blues[10], Card::Numeric(Color::Blue, 1));
    assert_eq!(blues[18], Card::Numeric(Color::Blue, 9));
}

#[test]
fn white_cards_hold_both_wild_kinds() {
    let white_cards = generate_white_cards();
    assert_eq!(white_cards[0], Card::Special(Action::SetColor(None), None));
    assert_eq!(
        white_cards[7],
        Card::Special(
            Action::SetColor(Some(Box::new(Action::Draw(DrawSize::Four)))),
            None
        )
    );
}

#[test]
fn deck_starts_with_red_numeric_run() {
    let deck = generate_deck();
    assert_eq!(deck[0], Card::Numeric(Color::Red, 0));
    assert_eq!(
        deck[TOTAL_COLORED_NUMERIC_CARDS],
        Card::Special(Action::SetColor(None), None)
    );
    assert_eq!(
        deck[TOTAL_CARDS_IN_FULL_DECK - 1],
        Card::Special(Action::Draw(DrawSize::Two), Some(Color::Blue))
    );
}
