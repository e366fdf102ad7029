use regex_tui::app::{handle_key_events, App, KeyCode, KeyInput};
use regex_tui::buffer::TextBuffer;
use regex_tui::field::{CurrentField, Position};
use regex_tui::report::{decimal_of, format_report, join_lines};

fn press(code: KeyCode) -> KeyInput {
    KeyInput { code, press: true, control: false }
}

fn send(app: &mut App, code: KeyCode) {
    handle_key_events(press(code), app);
}

fn type_str(app: &mut App, s: &str) {
    for c in s.chars() {
        send(app, KeyCode::Char(c));
    }
}

fn lines(b: &TextBuffer) -> Vec<String> {
    b.lines().iter().map(|l| l.iter().collect()).collect()
}

fn chars(s: &str) -> Vec<char> {
    s.chars().collect()
}

/// Moves the focus from the text to the pattern.
fn focus_pattern(app: &mut App) {
    send(app, KeyCode::Tab);
    send(app, KeyCode::Tab);
    assert_eq!(app.current_input, CurrentField::Regex);
}

#[test]
fn next_cycles_through_fields() {
    let mut f = CurrentField::Regex;
    f.next();
    assert_eq!(f, CurrentField::Text);
    f.next();
    assert_eq!(f, CurrentField::Matches);
    f.next();
    assert_eq!(f, CurrentField::Regex);
}

#[test]
fn next_three_times_returns_for_every_start() {
    for start in [CurrentField::Regex, CurrentField::Text, CurrentField::Matches] {
        let mut f = start;
        f.next();
        f.next();
        f.next();
        assert_eq!(f, start);
    }
}

#[test]
fn field_predicates() {
    assert!(CurrentField::Text.is_text());
    assert!(!CurrentField::Text.is_regex());
    assert!(CurrentField::Regex.is_regex());
    assert!(!CurrentField::Regex.is_matches());
    assert!(CurrentField::Matches.is_matches());
    assert!(!CurrentField::Matches.is_text());
}

#[test]
fn new_app_state() {
    let app = App::new();
    assert!(app.running);
    assert_eq!(app.current_input, CurrentField::Text);
    assert_eq!(app.compiled_pattern(), None);
    assert_eq!(lines(app.pattern_buffer()), vec![String::new()]);
    assert_eq!(lines(app.text_buffer()), vec![String::new()]);
    assert_eq!(lines(app.output_buffer()), vec![String::new()]);
    assert_eq!(app.text_buffer().cursor(), Position { x: 0, y: 0 });
    app.tick();
}

#[test]
fn named_groups_round_trip() {
    let mut app = App::new();
    focus_pattern(&mut app);
    type_str(&mut app, r"(?P<y>\d+)-(?P<m>\d+)");
    send(&mut app, KeyCode::Tab);
    type_str(&mut app, "2024-01");
    assert_eq!(
        lines(app.output_buffer()),
        vec!["", "0.", "  0: 2024-01", "  y: 2024", "  m: 01"]
    );
}

#[test]
fn several_matches_are_numbered() {
    let mut app = App::new();
    type_str(&mut app, "a1 b22");
    send(&mut app, KeyCode::Enter);
    type_str(&mut app, "c3");
    focus_pattern(&mut app);
    type_str(&mut app, r"(\w)(\d+)");
    assert_eq!(
        lines(app.output_buffer()),
        vec![
            "", "0.", "  0: a1", "  1: a", "  2: 1", "1.", "  0: b22", "  1: b", "  2: 22", "2.",
            "  0: c3", "  1: c", "  2: 3",
        ]
    );
}

#[test]
fn no_match_gives_one_empty_line() {
    let mut app = App::new();
    type_str(&mut app, "abc");
    focus_pattern(&mut app);
    type_str(&mut app, "z");
    assert_eq!(lines(app.output_buffer()), vec![String::new()]);
    assert_eq!(app.compiled_pattern(), Some(chars("z")));
}

#[test]
fn evaluating_twice_gives_the_same_output() {
    let mut app = App::new();
    type_str(&mut app, "x1y2");
    focus_pattern(&mut app);
    type_str(&mut app, r"\d");
    app.update_output();
    let first = lines(app.output_buffer());
    app.update_output();
    assert_eq!(lines(app.output_buffer()), first);
    assert_eq!(first, vec!["", "0.", "  0: 1", "1.", "  0: 2"]);
}

#[test]
fn empty_pattern_clears_output() {
    let mut app = App::new();
    type_str(&mut app, "aaa");
    focus_pattern(&mut app);
    type_str(&mut app, "a");
    assert_eq!(lines(app.output_buffer()).len(), 7);
    send(&mut app, KeyCode::Backspace);
    assert_eq!(lines(app.output_buffer()), vec![String::new()]);
    assert_eq!(app.compiled_pattern(), None);
}

#[test]
fn invalid_pattern_keeps_compiled_pattern() {
    let mut app = App::new();
    type_str(&mut app, "ab");
    focus_pattern(&mut app);
    type_str(&mut app, "a");
    let before = lines(app.output_buffer());
    assert_eq!(before, vec!["", "0.", "  0: a"]);
    send(&mut app, KeyCode::Char('('));
    assert_eq!(app.compiled_pattern(), Some(chars("a")));
    let out = lines(app.output_buffer());
    assert_eq!(out.len(), 1);
    assert!(out[0].contains("regex parse error"));
    send(&mut app, KeyCode::Backspace);
    assert_eq!(lines(app.output_buffer()), before);
    assert_eq!(app.compiled_pattern(), Some(chars("a")));
}

#[test]
fn text_edit_reruns_last_valid_pattern() {
    let mut app = App::new();
    focus_pattern(&mut app);
    type_str(&mut app, "b+");
    send(&mut app, KeyCode::Char('['));
    send(&mut app, KeyCode::Tab);
    type_str(&mut app, "abb");
    assert_eq!(lines(app.output_buffer()), vec!["", "0.", "  0: bb"]);
}

#[test]
fn backspace_at_line_start_drops_line() {
    let mut app = App::new();
    type_str(&mut app, "ab");
    send(&mut app, KeyCode::Enter);
    type_str(&mut app, "cd");
    send(&mut app, KeyCode::Left);
    send(&mut app, KeyCode::Left);
    assert_eq!(app.text_buffer().cursor(), Position { x: 0, y: 1 });
    send(&mut app, KeyCode::Backspace);
    assert_eq!(lines(app.text_buffer()), vec!["ab"]);
    assert_eq!(app.text_buffer().cursor(), Position { x: 2, y: 0 });
}

#[test]
fn backspace_at_origin_does_nothing() {
    let mut app = App::new();
    send(&mut app, KeyCode::Backspace);
    assert_eq!(lines(app.text_buffer()), vec![String::new()]);
    assert_eq!(app.text_buffer().cursor(), Position { x: 0, y: 0 });
}

#[test]
fn backspace_deletes_before_cursor() {
    let mut app = App::new();
    type_str(&mut app, "abc");
    send(&mut app, KeyCode::Left);
    send(&mut app, KeyCode::Backspace);
    assert_eq!(lines(app.text_buffer()), vec!["ac"]);
    assert_eq!(app.text_buffer().cursor(), Position { x: 1, y: 0 });
}

#[test]
fn control_u_clears_current_line() {
    let mut app = App::new();
    focus_pattern(&mut app);
    type_str(&mut app, "l");
    send(&mut app, KeyCode::Tab);
    type_str(&mut app, "first");
    send(&mut app, KeyCode::Enter);
    type_str(&mut app, "hello");
    let output = lines(app.output_buffer());
    assert_eq!(output, vec!["", "0.", "  0: l", "1.", "  0: l"]);
    handle_key_events(KeyInput { code: KeyCode::Char('u'), press: true, control: true }, &mut app);
    assert_eq!(lines(app.text_buffer()), vec!["first", ""]);
    assert_eq!(app.text_buffer().cursor(), Position { x: 0, y: 1 });
    assert_eq!(lines(app.output_buffer()), output);
}

#[test]
fn control_with_other_letter_inserts_it() {
    let mut app = App::new();
    handle_key_events(KeyInput { code: KeyCode::Char('a'), press: true, control: true }, &mut app);
    assert_eq!(lines(app.text_buffer()), vec!["a"]);
}

#[test]
fn release_events_are_ignored() {
    let mut app = App::new();
    handle_key_events(KeyInput { code: KeyCode::Char('a'), press: false, control: false }, &mut app);
    handle_key_events(KeyInput { code: KeyCode::Esc, press: false, control: false }, &mut app);
    assert_eq!(lines(app.text_buffer()), vec![String::new()]);
    assert!(app.running);
}

#[test]
fn escape_stops_running() {
    let mut app = App::new();
    send(&mut app, KeyCode::Esc);
    assert!(!app.running);
}

#[test]
fn vertical_moves_snap_to_line_end() {
    let mut app = App::new();
    type_str(&mut app, "long line");
    send(&mut app, KeyCode::Enter);
    type_str(&mut app, "ab");
    send(&mut app, KeyCode::Up);
    assert_eq!(app.text_buffer().cursor(), Position { x: 9, y: 0 });
    send(&mut app, KeyCode::Up);
    assert_eq!(app.text_buffer().cursor(), Position { x: 9, y: 0 });
    send(&mut app, KeyCode::Left);
    send(&mut app, KeyCode::Down);
    assert_eq!(app.text_buffer().cursor(), Position { x: 2, y: 1 });
    send(&mut app, KeyCode::Down);
    assert_eq!(app.text_buffer().cursor(), Position { x: 2, y: 1 });
}

#[test]
fn horizontal_moves_are_clamped() {
    let mut app = App::new();
    type_str(&mut app, "ab");
    send(&mut app, KeyCode::Right);
    assert_eq!(app.text_buffer().cursor(), Position { x: 2, y: 0 });
    send(&mut app, KeyCode::Left);
    send(&mut app, KeyCode::Left);
    send(&mut app, KeyCode::Left);
    assert_eq!(app.text_buffer().cursor(), Position { x: 0, y: 0 });
    send(&mut app, KeyCode::Char('x'));
    assert_eq!(lines(app.text_buffer()), vec!["xab"]);
}

#[test]
fn pattern_ignores_vertical_moves_and_stays_one_line() {
    let mut app = App::new();
    focus_pattern(&mut app);
    type_str(&mut app, "ab");
    send(&mut app, KeyCode::Up);
    send(&mut app, KeyCode::Down);
    assert_eq!(app.pattern_buffer().cursor(), Position { x: 2, y: 0 });
    send(&mut app, KeyCode::Enter);
    assert_eq!(lines(app.pattern_buffer()), vec!["ab"]);
    assert_eq!(app.pattern_buffer().cursor(), Position { x: 0, y: 0 });
}

#[test]
fn tab_moves_cursor_to_line_end() {
    let mut app = App::new();
    type_str(&mut app, "abc");
    send(&mut app, KeyCode::Left);
    send(&mut app, KeyCode::Left);
    send(&mut app, KeyCode::Tab);
    send(&mut app, KeyCode::Tab);
    send(&mut app, KeyCode::Tab);
    assert_eq!(app.current_input, CurrentField::Text);
    assert_eq!(app.text_buffer().cursor(), Position { x: 3, y: 0 });
}

#[test]
fn newline_appends_line() {
    let mut app = App::new();
    type_str(&mut app, "a");
    send(&mut app, KeyCode::Enter);
    assert_eq!(lines(app.text_buffer()), vec!["a", ""]);
    assert_eq!(app.text_buffer().cursor(), Position { x: 0, y: 1 });
}

#[test]
fn decimal_digits() {
    assert_eq!(decimal_of(0), chars("0"));
    assert_eq!(decimal_of(7), chars("7"));
    assert_eq!(decimal_of(10), chars("10"));
    assert_eq!(decimal_of(4096), chars("4096"));
}

#[test]
fn join_puts_line_feeds_between_lines() {
    assert_eq!(join_lines(&vec![]), chars(""));
    assert_eq!(join_lines(&vec![chars("ab")]), chars("ab"));
    assert_eq!(join_lines(&vec![chars("ab"), chars(""), chars("c")]), chars("ab\n\nc"));
}

#[test]
fn report_labels_and_skips_absent_groups() {
    let names = vec![None, Some(chars("word")), None];
    let found = vec![
        vec![Some(chars("ab")), Some(chars("a")), None],
        vec![Some(chars("c")), None, Some(chars("c"))],
    ];
    let r = format_report(&names, &found);
    let text: Vec<String> = r.iter().map(|l| l.iter().collect()).collect();
    assert_eq!(
        text,
        vec!["", "0.", "  0: ab", "  word: a", "1.", "  0: c", "  2: c"]
    );
}

#[test]
fn report_of_nothing_is_one_empty_line() {
    let r = format_report(&vec![None], &vec![]);
    assert_eq!(r, vec![Vec::<char>::new()]);
}

#[test]
fn optional_group_without_match_is_left_out() {
    let mut app = App::new();
    type_str(&mut app, "b");
    focus_pattern(&mut app);
    type_str(&mut app, "(a)|(b)");
    assert_eq!(lines(app.output_buffer()), vec!["", "0.", "  0: b", "  2: b"]);
}

#[test]
fn default_matches_new() {
    let app = App::default();
    assert!(app.running);
    assert_eq!(app.current_input, CurrentField::Text);
    assert_eq!(lines(app.output_buffer()), vec![String::new()]);
    assert_eq!(app.compiled_pattern(), None);
}

#[test]
fn evaluation_without_pattern_empties_output() {
    let mut app = App::new();
    send(&mut app, KeyCode::Tab);
    assert_eq!(app.current_input, CurrentField::Matches);
    type_str(&mut app, "x");
    assert_eq!(lines(app.output_buffer()), vec![String::new()]);
    let mut app = App::new();
    send(&mut app, KeyCode::Tab);
    handle_key_events(KeyInput { code: KeyCode::Char('u'), press: true, control: true }, &mut app);
    send(&mut app, KeyCode::Right);
    send(&mut app, KeyCode::Tab);
    send(&mut app, KeyCode::Tab);
    app.update_output();
    assert_eq!(lines(app.output_buffer()), vec![String::new()]);
    assert_eq!(app.output_buffer().cursor(), Position { x: 0, y: 0 });
    assert_eq!(app.compiled_pattern(), None);
}

#[test]
fn manual_output_edit_is_overwritten() {
    let mut app = App::new();
    type_str(&mut app, "ab");
    focus_pattern(&mut app);
    type_str(&mut app, "b");
    send(&mut app, KeyCode::Tab);
    send(&mut app, KeyCode::Tab);
    assert_eq!(app.current_input, CurrentField::Matches);
    send(&mut app, KeyCode::Char('z'));
    assert_eq!(lines(app.output_buffer()), vec!["", "0.", "  0: b"]);
}
