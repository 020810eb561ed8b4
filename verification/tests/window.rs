use text_window::cycle::window_generator;
use text_window::errors::WindowError;
use text_window::frames::{generate_singular_window, generate_windows};
use text_window::options::TextWindow;
use text_window::runner::Runner;
use text_window::style::BracketStyle;

#[test]
fn bracket_style_parse() {
    let style = BracketStyle::parse("square");
    assert_eq!(style, Ok(BracketStyle::Square));
}

#[test]
fn parse_is_case_insensitive() {
    assert_eq!(BracketStyle::parse("SQUARE"), BracketStyle::parse("square"));
    assert_eq!(BracketStyle::parse("SQUARE"), Ok(BracketStyle::Square));
    assert_eq!(BracketStyle::parse("SqUiGgLy"), Ok(BracketStyle::Squiggly));
    assert_eq!(BracketStyle::parse("Circle"), Ok(BracketStyle::Circle));
    assert_eq!(BracketStyle::parse("NONE"), Ok(BracketStyle::Bare));
}

#[test]
fn parse_rejects_unknown_style() {
    assert_eq!(
        BracketStyle::parse("hexagon"),
        Err(WindowError::UnknownBracketStyle)
    );
    assert_eq!(BracketStyle::parse(""), Err(WindowError::UnknownBracketStyle));
    assert_eq!(
        BracketStyle::parse("squarely"),
        Err(WindowError::UnknownBracketStyle)
    );
}

#[test]
fn gsw_works() {
    assert_eq!(
        generate_singular_window("test", ' ', 0, 5, BracketStyle::Square),
        "[test ]"
    );
    assert_eq!(
        generate_singular_window("test", ' ', 1, 5, BracketStyle::Squiggly),
        "{ test}"
    );
    assert_eq!(
        generate_singular_window("test", ' ', 1, 10, BracketStyle::Circle),
        "( test     )"
    )
}

#[test]
fn bare_style_renders_nul_delimiters() {
    assert_eq!(
        generate_singular_window("ab", '-', 1, 4, BracketStyle::Bare),
        "\0-ab-\0"
    );
}

#[test]
fn gsw_frames_works() {
    let frames = generate_windows("text", ' ', 5, BracketStyle::Square).unwrap();
    assert_eq!(frames, vec!["[text ]", "[ text]",]);
}

#[test]
fn bounce_cycle_for_wider_window() {
    let frames = generate_windows("test", ' ', 8, BracketStyle::Square).unwrap();
    assert_eq!(
        frames,
        vec![
            "[test    ]",
            "[ test   ]",
            "[  test  ]",
            "[   test ]",
            "[    test]",
            "[   test ]",
            "[  test  ]",
            "[ test   ]",
        ]
    );
    for frame in &frames {
        assert_eq!(frame.chars().count(), 8 + 2);
    }
}

#[test]
fn single_frame_window() {
    let frames = generate_windows("abc", ' ', 3, BracketStyle::Square).unwrap();
    assert_eq!(frames, vec!["[abc]"]);
}

#[test]
fn undersized_window_is_rejected() {
    assert_eq!(
        generate_windows("test", ' ', 2, BracketStyle::Square),
        Err(WindowError::InvalidWindowSize)
    );
    assert!(window_generator("test", ' ', 3, BracketStyle::Square).is_err());
}

#[test]
fn window_generator_works() {
    let mut gen = window_generator("text", ' ', 5, BracketStyle::Square).unwrap();
    let frames: Vec<String> = (0..4).map(|_| gen.next_frame()).collect();
    assert_eq!(frames, vec!["[text ]", "[ text]", "[text ]", "[ text]"]);

    let mut gen = window_generator("abc123", ' ', 9, BracketStyle::Circle).unwrap();
    let frames: Vec<String> = (0..7).map(|_| gen.next_frame()).collect();
    assert_eq!(
        frames,
        vec![
            "(abc123   )",
            "( abc123  )",
            "(  abc123 )",
            "(   abc123)",
            "(  abc123 )",
            "( abc123  )",
            "(abc123   )"
        ]
    );
}

#[test]
fn matches_checks_grammar_shape() {
    let command = TextWindow;
    assert!(command.matches(".window 500 10 circle ' ' \"hi\""));
    assert!(!command.matches("hello there"));
    assert!(!command.matches(".window 500 10 circle"));
}

#[test]
fn fetch_options_accepts_full_command() {
    let options = TextWindow::fetch_options(".window 500 10 circle ' ' \"hi\"").unwrap();
    assert_eq!(options.delay, 500);
    assert_eq!(options.window_size, 10);
    assert_eq!(options.style, BracketStyle::Circle);
    assert_eq!(options.background, ' ');
    assert_eq!(options.text, "hi");
}

#[test]
fn fetch_options_rejects_unknown_style() {
    assert_eq!(
        TextWindow::fetch_options(".window 500 10 hexagon ' ' \"hi\"").unwrap_err(),
        WindowError::UnknownBracketStyle
    );
}

#[test]
fn fetch_options_rejects_non_matching_text() {
    assert_eq!(
        TextWindow::fetch_options("hello there").unwrap_err(),
        WindowError::NoMatch
    );
    assert_eq!(
        TextWindow::fetch_options(".window 500 10 circle ' ' \"\"").unwrap_err(),
        WindowError::NoMatch
    );
}

#[test]
fn fetch_options_rejects_bad_numbers() {
    assert_eq!(
        TextWindow::fetch_options(".window 99999999999999999999999 10 square ' ' \"hi\"").unwrap_err(),
        WindowError::InvalidNumber
    );
    assert_eq!(
        TextWindow::fetch_options(".window 500 wide square ' ' \"hi\"").unwrap_err(),
        WindowError::InvalidNumber
    );
}

#[test]
fn runner_cycles_frames_in_order() {
    let options = TextWindow::fetch_options(".window 0 5 square ' ' \"text\"").unwrap();
    let mut run = Runner::new(&options).unwrap();
    let mut sent: Vec<String> = Vec::new();
    for _ in 0..4 {
        sent.push(run.take_frame());
        run.record_delivery(true);
    }
    assert_eq!(sent, vec!["[text ]", "[ text]", "[text ]", "[ text]"]);
    assert_eq!(run.frames_issued(), 4);
    assert!(!run.is_aborted());
}

#[test]
fn runner_stops_after_failed_delivery() {
    let options = TextWindow::fetch_options(".window 0 5 square ' ' \"text\"").unwrap();
    let mut run = Runner::new(&options).unwrap();
    run.take_frame();
    run.record_delivery(true);
    run.take_frame();
    run.record_delivery(true);
    let third = run.take_frame();
    assert_eq!(third, "[text ]");
    run.record_delivery(false);
    assert_eq!(run.frames_issued(), 3);
    assert!(run.is_aborted());
}

#[test]
fn runner_rejects_undersized_window() {
    let options = TextWindow::fetch_options(".window 0 2 square ' ' \"text\"").unwrap();
    assert!(Runner::new(&options).is_err());
}

#[test]
fn report_names_the_command() {
    let command = TextWindow;
    assert_eq!(command.report().name, "text_window");
}
