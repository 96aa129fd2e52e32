use greet_ui::command;
use greet_ui::command::CursorPosition;
use greet_ui::frame;
use greet_ui::geometry::Rect;
use greet_ui::state::{Messages, Mode, StateSnapshot};
use greet_ui::status::{
    TextStyle, displayed_width, prompt_value, status_block_size, status_label, status_left_spans,
    status_right_span, status_value, titleize,
};

fn messages() -> Messages {
    Messages {
        action_reset: String::from("reset"),
        action_command: String::from("change command"),
        action_session: String::from("choose session"),
        action_power: String::from("power"),
        status_command: String::from("CMD"),
        status_caps: String::from("CAPS LOCK"),
        title_command: String::from("change command"),
        new_command: String::from("New command: "),
        date_format: String::from("%c"),
    }
}

fn snapshot() -> StateSnapshot {
    StateSnapshot {
        mode: Mode::Command,
        window_padding: 1,
        container_padding: 1,
        container_width: 40,
        container_height: 3,
        command: None,
        new_command: String::from("ls"),
        time_enabled: false,
        time_format: None,
        locale: chrono::Locale::en_US,
        capslock: false,
        suppress_cursor: false,
        messages: messages(),
    }
}

#[test]
fn status_block_size_halves_the_padded_width() {
    assert_eq!(status_block_size(80, 1), 39);
    assert_eq!(status_block_size(10, 1), 4);
    assert_eq!(status_block_size(7, 2), 1);
    assert!(2 * 2 + 2 * status_block_size(7, 2) <= 7);
}

#[test]
fn titleize_capitalizes_each_word() {
    assert_eq!(titleize("hello world"), "Hello World");
    assert_eq!(titleize("change command"), "Change Command");
    assert_eq!(titleize("ls"), "Ls");
    assert_eq!(titleize("-"), "-");
    assert_eq!(titleize(""), "");
    assert_eq!(titleize("\u{fc}ber caf\u{e9}"), "\u{fc}ber Caf\u{e9}");
}

#[test]
fn displayed_width_counts_characters_not_bytes() {
    assert_eq!(displayed_width("New command: "), 13);
    let s = "caf\u{e9} \u{fc}ber";
    assert!(s.len() > 9);
    assert_eq!(displayed_width(s), 9);
}

#[test]
fn status_span_styles() {
    let l = status_label("ESC");
    assert_eq!(l.style, TextStyle::Reversed);
    assert_eq!(l.text, "ESC");
    let v = status_value("reset session");
    assert_eq!(v.style, TextStyle::Plain);
    assert_eq!(v.text, "Reset Session");
    let p = prompt_value(Some("New command: "));
    assert_eq!(p.style, TextStyle::Bold);
    assert_eq!(p.text, "New command: ");
    let e = prompt_value(None);
    assert_eq!(e.style, TextStyle::Plain);
    assert_eq!(e.text, "");
}

#[test]
fn status_left_legend_and_placeholder() {
    let m = messages();
    let spans = status_left_spans(&m, &None);
    assert_eq!(spans.len(), 10);
    assert_eq!(spans[0].text, "ESC");
    assert_eq!(spans[0].style, TextStyle::Reversed);
    assert_eq!(spans[1].text, "Reset");
    assert_eq!(spans[1].style, TextStyle::Plain);
    assert_eq!(spans[2].text, "F2");
    assert_eq!(spans[3].text, "Change Command");
    assert_eq!(spans[4].text, "F3");
    assert_eq!(spans[5].text, "Choose Session");
    assert_eq!(spans[6].text, "F12");
    assert_eq!(spans[7].text, "Power");
    assert_eq!(spans[8].text, "CMD");
    assert_eq!(spans[8].style, TextStyle::Reversed);
    assert_eq!(spans[9].text, "-");
}

#[test]
fn status_left_shows_current_command_titleized() {
    let m = messages();
    let spans = status_left_spans(&m, &Some(String::from("ls")));
    assert_eq!(spans[9].text, "Ls");
    assert_eq!(spans[9].style, TextStyle::Plain);
}

#[test]
fn capslock_indicator_present_exactly_when_active() {
    let m = messages();
    assert!(status_right_span(&m, false).is_none());
    let caps = status_right_span(&m, true).unwrap();
    assert_eq!(caps.style, TextStyle::Reversed);
    assert_eq!(caps.text, "CAPS LOCK");
}

#[test]
fn command_panel_scenario_80x24() {
    let state = snapshot();
    let main = Rect { x: 0, y: 2, width: 80, height: 20 };
    let panel = command::draw(&state, main).unwrap();
    assert_eq!(panel.container, Rect { x: 20, y: 10, width: 40, height: 3 });
    assert_eq!(panel.frame, Rect { x: 21, y: 11, width: 39, height: 2 });
    assert_eq!(panel.row.x, 21);
    assert_eq!(panel.row.y, 11);
    assert_eq!(panel.title.text, "Change Command");
    assert_eq!(panel.label.text, "New command: ");
    assert_eq!(panel.label.style, TextStyle::Bold);
    assert_eq!(panel.value, "ls");
    assert_eq!(panel.value_col, 21 + 1 + 13);
    assert_eq!(panel.value_width, 39 - 13 - 1);
    // cursor = (row.x + 2 + label + input, row.y + 1), 1-indexed
    assert_eq!(panel.cursor, CursorPosition { col: 21 + 2 + 13 + 2, row: 12 });
}

#[test]
fn command_cursor_column_grows_with_input() {
    let main = Rect { x: 0, y: 2, width: 80, height: 20 };
    let mut prev = 0;
    for value in ["", "l", "ls", "ls ", "ls -l"] {
        let mut state = snapshot();
        state.new_command = String::from(value);
        let panel = command::draw(&state, main).unwrap();
        assert!(panel.cursor.col >= prev);
        prev = panel.cursor.col;
    }
}

#[test]
fn frame_scenario_80x24() {
    let state = snapshot();
    let plan = frame::draw(&state, 80, 24, None).unwrap();
    assert_eq!(plan.time_row, Rect { x: 0, y: 1, width: 80, height: 1 });
    assert_eq!(plan.main, Rect { x: 0, y: 2, width: 80, height: 20 });
    assert_eq!(plan.status_row, Rect { x: 0, y: 22, width: 80, height: 1 });
    assert!(plan.time.is_none());
    let status = plan.status.unwrap();
    assert_eq!(status.left_rect, Rect { x: 1, y: 22, width: 39, height: 1 });
    assert_eq!(status.right_rect, Rect { x: 40, y: 22, width: 39, height: 1 });
    assert_eq!(status.left.len(), 10);
    assert!(status.right.is_none());
    let panel = plan.panel.unwrap();
    assert_eq!(panel.container, Rect { x: 20, y: 10, width: 40, height: 3 });
    // 0-indexed terminal cursor, one left and one up of the logical caret
    assert_eq!(plan.cursor, Some((37, 11)));
}

#[test]
fn frame_too_narrow_panel_skipped_status_still_laid_out() {
    let mut state = snapshot();
    state.container_width = 40;
    let plan = frame::draw(&state, 10, 5, None).unwrap();
    assert_eq!(plan.main, Rect { x: 0, y: 2, width: 10, height: 1 });
    assert!(plan.panel.is_none());
    assert!(plan.cursor.is_none());
    let status = plan.status.unwrap();
    assert_eq!(status.left_rect, Rect { x: 1, y: 3, width: 4, height: 1 });
    assert_eq!(status.right_rect, Rect { x: 5, y: 3, width: 4, height: 1 });
}

#[test]
fn frame_too_short_reports_geometry_error() {
    let state = snapshot();
    assert!(frame::draw(&state, 80, 4, None).is_err());
}

#[test]
fn frame_status_skipped_when_padding_exceeds_width() {
    let mut state = snapshot();
    state.window_padding = 1;
    let plan = frame::draw(&state, 1, 24, None).unwrap();
    assert!(plan.status.is_none());
}

#[test]
fn cursor_suppressed_regardless_of_panel() {
    let mut state = snapshot();
    state.suppress_cursor = true;
    let plan = frame::draw(&state, 80, 24, None).unwrap();
    assert!(plan.panel.is_some());
    assert!(plan.cursor.is_none());
    let mut other = snapshot();
    other.suppress_cursor = true;
    other.mode = Mode::Sessions;
    let plan = frame::draw(&other, 80, 24, Some(CursorPosition { col: 5, row: 3 })).unwrap();
    assert!(plan.cursor.is_none());
}

#[test]
fn external_mode_cursor_passed_through() {
    let mut state = snapshot();
    state.mode = Mode::Sessions;
    let plan = frame::draw(&state, 80, 24, Some(CursorPosition { col: 5, row: 3 })).unwrap();
    assert!(plan.panel.is_none());
    assert_eq!(plan.cursor, Some((4, 2)));
    let mut prompt = snapshot();
    prompt.mode = Mode::Prompt;
    let plan = frame::draw(&prompt, 80, 24, None).unwrap();
    assert!(plan.cursor.is_none());
}

#[test]
fn redraws_are_deterministic() {
    let p1 = frame::draw(&snapshot(), 80, 24, None).unwrap();
    let p2 = frame::draw(&snapshot(), 80, 24, None).unwrap();
    assert_eq!(p1.time_row, p2.time_row);
    assert_eq!(p1.main, p2.main);
    assert_eq!(p1.status_row, p2.status_row);
    assert_eq!(p1.cursor, p2.cursor);
    let s1 = p1.status.unwrap();
    let s2 = p2.status.unwrap();
    assert_eq!(s1.left_rect, s2.left_rect);
    assert_eq!(s1.right_rect, s2.right_rect);
    let c1 = p1.panel.unwrap();
    let c2 = p2.panel.unwrap();
    assert_eq!(c1.container, c2.container);
    assert_eq!(c1.frame, c2.frame);
    assert_eq!(c1.row, c2.row);
    assert_eq!(c1.cursor, c2.cursor);
}

#[test]
fn time_text_present_when_enabled() {
    let mut state = snapshot();
    state.time_enabled = true;
    state.time_format = Some(String::from("%H:%M"));
    let plan = frame::draw(&state, 80, 24, None).unwrap();
    let time = plan.time.unwrap();
    assert_eq!(time.len(), 5);
}

#[test]
fn time_invalid_pattern_yields_no_text() {
    let mut state = snapshot();
    state.time_enabled = true;
    state.time_format = Some(String::from("%Q"));
    let plan = frame::draw(&state, 80, 24, None).unwrap();
    assert!(plan.time.is_none());
}

#[test]
fn time_literal_pattern_passes_through() {
    let mut state = snapshot();
    state.time_enabled = true;
    state.time_format = Some(String::from("login"));
    let plan = frame::draw(&state, 80, 24, None).unwrap();
    assert_eq!(plan.time.unwrap(), "login");
}
