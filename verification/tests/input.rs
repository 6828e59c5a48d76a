use wta::app::state::App;
use wta::coordinator::RecommendationSet;
use wta::ui::input::{
    char_display_width, cursor_position, input_height, input_viewport, wrap_input, Area, Position,
};
use wta::ui::layout::{columns, rows, Share};

#[test]
fn empty_input_uses_single_visible_row() {
    let viewport = input_viewport("", 0, 20);

    assert_eq!(viewport.visible_lines, vec![String::new()]);
    assert_eq!(viewport.cursor_row, 0);
    assert_eq!(viewport.cursor_col, 0);
    assert_eq!(input_height("", 0, 20), 3);
}

#[test]
fn long_input_wraps_and_grows_box() {
    let viewport = input_viewport("abcdefghij", 10, 8);

    assert_eq!(viewport.visible_lines, vec!["abcdef".to_string(), "ghij".to_string()]);
    assert_eq!(viewport.cursor_row, 1);
    assert_eq!(viewport.cursor_col, 4);
    assert_eq!(input_height("abcdefghij", 10, 8), 4);
}

#[test]
fn viewport_scrolls_when_wrapped_content_exceeds_max_height() {
    let viewport = input_viewport("abcdefghijklmnopqrstuvwxyz0123456789!", 37, 8);

    assert_eq!(viewport.visible_lines.len(), 6);
    assert!(viewport.scroll_row > 0);
    assert_eq!(viewport.cursor_row, 5);
}

#[test]
fn characters_take_their_columns_and_at_least_one() {
    assert_eq!(char_display_width('a'), 1);
    assert_eq!(char_display_width('你'), 2);
    assert_eq!(char_display_width('😀'), 2);
    assert_eq!(char_display_width('\u{301}'), 1);
    assert_eq!(char_display_width('\t'), 4);
    assert_eq!(char_display_width('\u{7}'), 1);
}

#[test]
fn wrapped_rows_hold_the_whole_input() {
    let input = "one two\n你好吗 three";
    let wrapped = wrap_input(input, input.len(), 5);
    let joined: String = wrapped.lines.concat();
    assert_eq!(joined, input.replace('\n', ""));
    for line in &wrapped.lines {
        assert!(line.chars().map(char_display_width).sum::<usize>() <= 5, "{}", line);
    }
    assert_eq!(wrapped.cursor_row, wrapped.lines.len() - 1);
}

#[test]
fn rows_of_any_width_hold_the_input() {
    let input = "one two\n你好\tthree";
    for width in [0, 1, 2, 3, 4, 7, 65535, 65536, usize::MAX - 1, usize::MAX] {
        let wrapped = wrap_input(input, 3, width);
        assert_eq!(wrapped.lines.concat(), input.replace('\n', ""));
        for line in &wrapped.lines {
            let taken: usize = line.chars().map(char_display_width).sum();
            assert!(taken <= width.max(1) || line.chars().count() == 1, "{}", line);
        }
        assert!(wrapped.cursor_row < wrapped.lines.len());
    }
    let wide = wrap_input(input, input.len(), usize::MAX);
    assert_eq!(wide.lines, vec!["one two".to_string(), "你好\tthree".to_string()]);
    assert_eq!((wide.cursor_row, wide.cursor_col), (1, 13));
}

#[test]
fn printable_ascii_takes_one_column_each() {
    for c in ' '..='~' {
        assert_eq!(char_display_width(c), 1, "{}", c);
    }
    for c in ('\u{0}'..'\u{20}').chain('\u{7f}'..'\u{a0}') {
        assert_eq!(char_display_width(c), if c == '\t' { 4 } else { 1 }, "{:?}", c);
    }
}

#[test]
fn a_row_ends_where_the_next_character_does_not_fit() {
    let wrapped = wrap_input("abc你d", 0, 4);
    assert_eq!(wrapped.lines, vec!["abc".to_string(), "你d".to_string()]);
}

#[test]
fn a_character_wider_than_the_row_has_a_row_of_its_own() {
    let wrapped = wrap_input("你a", 0, 1);
    assert_eq!(wrapped.lines, vec!["你".to_string(), "a".to_string()]);
    assert_eq!((wrapped.cursor_row, wrapped.cursor_col), (0, 0));
}

#[test]
fn the_cursor_stands_in_the_box() {
    let area = Area { x: 3, y: 5, width: 8, height: 4 };
    assert_eq!(cursor_position("abcdefghij", 10, area), Some(Position { x: 8, y: 7 }));
    assert_eq!(cursor_position("", 0, area), Some(Position { x: 4, y: 6 }));
    assert_eq!(cursor_position("a", 1, Area { x: 0, y: 0, width: 2, height: 4 }), None);
    let low = Area { x: 65530, y: 65529, width: 7, height: 8 };
    let input = "\n".repeat(9) + "abcdefghi";
    assert_eq!(cursor_position(&input, input.len(), low), Some(Position { x: 65535, y: 65535 }));
    let thin = Area { x: 65535, y: 65535, width: 2, height: 2 };
    assert_eq!(cursor_position("a", 1, thin), None);
    assert_eq!(cursor_position("a", 1, Area { x: 0, y: 0, width: 8, height: 2 }), None);
}

#[test]
fn the_screen_is_split_into_rows_that_fit() {
    let mut app = App::new(true, true, false);
    assert_eq!(columns(), vec![Share::Percentage(60), Share::Percentage(40)]);
    assert_eq!(
        rows(true, 5),
        vec![Share::Length(1), Share::Length(8), Share::Min(1), Share::Length(5)]
    );
    for height in 5..60 {
        let area = Area { x: 2, y: 7, width: 80, height };
        let areas = app.screen_areas(area);
        assert_eq!(areas.status_bar, Area { x: 2, y: 7, width: 80, height: 1 });
        assert_eq!(areas.recommendations, Area { x: 2, y: 8, width: 80, height: 0 });
        assert_eq!(areas.chat, Area { x: 2, y: 8, width: 80, height: height - 4 });
        assert_eq!(areas.input, Area { x: 2, y: 4 + height, width: 80, height: 3 });
        assert_eq!(areas.debug, None);
        assert_eq!(app.input_cursor_position(area), Some(Position { x: 3, y: 5 + height }));
    }
    app.recommendations =
        Some(RecommendationSet { recommended_choice: None, choices: Vec::new() });
    for height in [13, 14, 40, 1000, 30000] {
        let areas = app.screen_areas(Area { x: 0, y: 0, width: 80, height });
        assert_eq!(areas.recommendations, Area { x: 0, y: 1, width: 80, height: 8 });
        assert_eq!(areas.chat, Area { x: 0, y: 9, width: 80, height: height - 12 });
        assert_eq!(areas.input, Area { x: 0, y: height - 3, width: 80, height: 3 });
    }
}

#[test]
fn the_debug_panel_takes_its_part_of_the_width() {
    let mut app = App::new(true, true, false);
    app.show_debug_panel = true;
    for width in (0..400).chain([1000, 12345, 65535]) {
        for x in [0, 3] {
            if width == 65535 && x > 0 {
                continue;
            }
            let areas = app.screen_areas(Area { x, y: 4, width, height: 30 });
            let main = ((width as u32 * 60 + 50) / 100) as u16;
            assert_eq!(areas.input.width, main, "{}", width);
            assert_eq!(areas.status_bar, Area { x, y: 4, width: main, height: 1 });
            assert_eq!(
                areas.debug,
                Some(Area { x: x + main, y: 4, width: width - main, height: 30 })
            );
        }
    }
}
