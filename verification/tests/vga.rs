use kernel::vga::{
    backspace, Color, ColorCode, ScreenChar, VGAFrame, BUF_HEIGHT, BUF_WIDTH, _err_print, _print,
};

const GREEN: ColorCode = ColorCode(0x02);
const RED: ColorCode = ColorCode(0x04);

fn cell(frame: &VGAFrame, row: usize, col: usize) -> ScreenChar {
    frame.buffer()[row][col]
}

fn row_text(frame: &VGAFrame, row: usize) -> String {
    frame.buffer()[row].iter().map(|c| c.ascii as char).collect::<String>().trim_end().to_string()
}

#[test]
fn buffer_is_25_by_80() {
    assert_eq!(BUF_HEIGHT, 25);
    assert_eq!(BUF_WIDTH, 80);
}

#[test]
fn color_codes_have_their_numbers() {
    let all = [
        Color::Black,
        Color::Blue,
        Color::Green,
        Color::Cyan,
        Color::Red,
        Color::Magenta,
        Color::Brown,
        Color::LightGray,
        Color::DarkGray,
        Color::LightBlue,
        Color::LightGreen,
        Color::LightCyan,
        Color::LightRed,
        Color::Pink,
        Color::Yellow,
        Color::White,
    ];
    for (n, color) in all.iter().enumerate() {
        assert_eq!(color.as_u8() as usize, n);
    }
}

#[test]
fn color_code_packs_background_above_foreground() {
    assert_eq!(ColorCode::new(Color::Green, Color::Black), ColorCode(0x02));
    assert_eq!(ColorCode::new(Color::Black, Color::Green), ColorCode(0x20));
    assert_eq!(ColorCode::new(Color::Red, Color::Black), ColorCode(0x04));
    assert_eq!(ColorCode::new(Color::Yellow, Color::Blue), ColorCode(0x1e));
    assert_eq!(ColorCode::new(Color::White, Color::White), ColorCode(0xff));
}

#[test]
fn new_frame_is_blank_with_cursor_at_origin() {
    let frame = VGAFrame::new();
    assert_eq!(frame.cursor(), (0, 0));
    for row in 0..BUF_HEIGHT {
        for col in 0..BUF_WIDTH {
            assert_eq!(cell(&frame, row, col), ScreenChar { ascii: b' ', color_code: GREEN });
        }
    }
}

#[test]
fn write_byte_puts_the_byte_under_the_cursor_and_stays() {
    let mut frame = VGAFrame::new();
    frame.write_byte(b'A');
    assert_eq!(cell(&frame, 0, 0), ScreenChar { ascii: b'A', color_code: GREEN });
    assert_eq!(frame.cursor(), (0, 0));
    frame.write_byte(b'B');
    assert_eq!(cell(&frame, 0, 0), ScreenChar { ascii: b'B', color_code: GREEN });
    assert_eq!(cell(&frame, 0, 1).ascii, b' ');
}

#[test]
fn write_byte_line_feed_breaks_the_line() {
    let mut frame = VGAFrame::new();
    frame.write_string("ab");
    frame.write_byte(b'\n');
    assert_eq!(frame.cursor(), (0, 1));
    assert_eq!(row_text(&frame, 0), "ab");
}

#[test]
fn write_screenchar_keeps_the_given_colours() {
    let mut frame = VGAFrame::new();
    let c = ScreenChar { ascii: b'#', color_code: ColorCode(0x4f) };
    frame.write_screenchar(c);
    assert_eq!(cell(&frame, 0, 0), c);
    assert_eq!(frame.cursor(), (0, 0));
}

#[test]
fn write_string_advances_the_cursor() {
    let mut frame = VGAFrame::new();
    frame.write_string("hello");
    assert_eq!(row_text(&frame, 0), "hello");
    assert_eq!(frame.cursor(), (5, 0));
    assert_eq!(cell(&frame, 0, 4), ScreenChar { ascii: b'o', color_code: GREEN });
}

#[test]
fn write_string_replaces_unprintable_bytes() {
    let mut frame = VGAFrame::new();
    frame.write_string("a\tb\u{7f}é");
    let got: Vec<u8> = (0..6).map(|c| cell(&frame, 0, c).ascii).collect();
    assert_eq!(got, vec![b'a', 0xfe, b'b', 0xfe, 0xfe, 0xfe]);
    assert_eq!(frame.cursor(), (6, 0));
}

#[test]
fn write_string_keeps_the_printable_range() {
    let mut frame = VGAFrame::new();
    frame.write_string(" ~\u{1f}");
    let got: Vec<u8> = (0..3).map(|c| cell(&frame, 0, c).ascii).collect();
    assert_eq!(got, vec![0x20, 0x7e, 0xfe]);
}

#[test]
fn line_feed_in_a_string_leaves_the_cursor_in_column_one() {
    let mut frame = VGAFrame::new();
    frame.write_string("ab\ncd");
    assert_eq!(row_text(&frame, 0), "ab");
    assert_eq!(row_text(&frame, 1), " cd");
    assert_eq!(frame.cursor(), (3, 1));
}

#[test]
fn write_string_wraps_at_the_end_of_a_row() {
    let mut frame = VGAFrame::new();
    let line = "x".repeat(80);
    frame.write_string(&line);
    assert_eq!(frame.cursor(), (0, 1));
    frame.write_string("y");
    assert_eq!(cell(&frame, 0, 79).ascii, b'x');
    assert_eq!(cell(&frame, 1, 0).ascii, b'y');
    assert_eq!(frame.cursor(), (1, 1));
}

#[test]
fn new_line_on_the_last_row_scrolls() {
    let mut frame = VGAFrame::new();
    for row in 0..BUF_HEIGHT {
        let label = format!("row{}", row);
        frame.write_string(&label);
        if row + 1 < BUF_HEIGHT {
            frame.new_line();
        }
    }
    assert_eq!(frame.cursor(), (5, 24));
    assert_eq!(row_text(&frame, 0), "row0");
    assert_eq!(row_text(&frame, 24), "row24");
    frame.new_line();
    assert_eq!(frame.cursor(), (0, 24));
    for row in 0..BUF_HEIGHT - 1 {
        assert_eq!(row_text(&frame, row), format!("row{}", row + 1));
    }
    assert_eq!(row_text(&frame, 24), "");
}

#[test]
fn writing_past_the_last_cell_scrolls() {
    let mut frame = VGAFrame::new();
    frame.write_string("top");
    for _ in 0..24 {
        frame.new_line();
    }
    assert_eq!(frame.cursor(), (0, 24));
    let line = "z".repeat(80);
    frame.write_string(&line);
    assert_eq!(frame.cursor(), (0, 24));
    assert_eq!(row_text(&frame, 23), line);
    assert_eq!(row_text(&frame, 24), "");
    assert_eq!(row_text(&frame, 0), "");
}

#[test]
fn shove_buffer_moves_rows_up_and_keeps_the_last() {
    let mut frame = VGAFrame::new();
    frame.write_string("first");
    frame.new_line();
    frame.write_string("second");
    for _ in 0..23 {
        frame.new_line();
    }
    frame.write_string("last");
    frame.shove_buffer();
    assert_eq!(row_text(&frame, 0), "second");
    assert_eq!(row_text(&frame, 23), "last");
    assert_eq!(row_text(&frame, 24), "last");
    assert_eq!(frame.cursor(), (4, 24));
}

#[test]
fn clear_line_blanks_one_row() {
    let mut frame = VGAFrame::new();
    frame.write_string("one");
    frame.new_line();
    frame.write_string("two");
    frame.clear_line(0);
    assert_eq!(row_text(&frame, 0), "");
    assert_eq!(row_text(&frame, 1), "two");
    assert_eq!(cell(&frame, 0, 0), ScreenChar { ascii: b' ', color_code: GREEN });
    assert_eq!(frame.cursor(), (3, 1));
}

#[test]
fn clear_line_reaches_the_last_row_and_ignores_rows_below() {
    let mut frame = VGAFrame::new();
    for _ in 0..24 {
        frame.new_line();
    }
    frame.write_string("bottom");
    frame.clear_line(25);
    frame.clear_line(usize::MAX);
    assert_eq!(row_text(&frame, 24), "bottom");
    frame.clear_line(24);
    assert_eq!(row_text(&frame, 24), "");
}

#[test]
fn backspace_blanks_the_cell_before_the_cursor() {
    let mut frame = VGAFrame::new();
    frame.write_string("abc");
    frame.backspace();
    assert_eq!(frame.cursor(), (2, 0));
    assert_eq!(row_text(&frame, 0), "ab");
    backspace(&mut frame);
    assert_eq!(frame.cursor(), (1, 0));
    assert_eq!(row_text(&frame, 0), "a");
}

#[test]
fn backspace_retreats_to_column_zero_and_stops_there() {
    let mut frame = VGAFrame::new();
    frame.write_string("a");
    assert_eq!(frame.cursor(), (1, 0));
    frame.backspace();
    assert_eq!(frame.cursor(), (0, 0));
    assert_eq!(row_text(&frame, 0), "");

    frame.write_byte(b'q');
    frame.backspace();
    assert_eq!(frame.cursor(), (0, 0));
    assert_eq!(cell(&frame, 0, 0).ascii, b' ');
}

#[test]
fn backspace_keeps_the_row() {
    let mut frame = VGAFrame::new();
    frame.write_string("ab\ncd");
    assert_eq!(frame.cursor(), (3, 1));
    for column in [2, 1, 0, 0] {
        backspace(&mut frame);
        assert_eq!(frame.cursor(), (column, 1));
    }
    assert_eq!(row_text(&frame, 0), "ab");
    assert_eq!(row_text(&frame, 1), "");
}

#[test]
fn print_writes_in_the_normal_colours() {
    let mut frame = VGAFrame::new();
    _print(&mut frame, "ok");
    assert_eq!(cell(&frame, 0, 0), ScreenChar { ascii: b'o', color_code: GREEN });
    assert_eq!(cell(&frame, 0, 1), ScreenChar { ascii: b'k', color_code: GREEN });
    assert_eq!(frame.cursor(), (2, 0));
}

#[test]
fn err_print_writes_in_red_and_restores_the_colours() {
    let mut frame = VGAFrame::new();
    _err_print(&mut frame, "no");
    assert_eq!(cell(&frame, 0, 0), ScreenChar { ascii: b'n', color_code: RED });
    assert_eq!(cell(&frame, 0, 1), ScreenChar { ascii: b'o', color_code: RED });
    _print(&mut frame, "!");
    assert_eq!(cell(&frame, 0, 2), ScreenChar { ascii: b'!', color_code: GREEN });
}

#[test]
fn err_print_clears_a_scrolled_row_in_red() {
    let mut frame = VGAFrame::new();
    for _ in 0..24 {
        frame.new_line();
    }
    _err_print(&mut frame, "e\n");
    assert_eq!(cell(&frame, 23, 0), ScreenChar { ascii: b'e', color_code: RED });
    assert_eq!(cell(&frame, 24, 5), ScreenChar { ascii: b' ', color_code: RED });
    assert_eq!(frame.cursor(), (1, 24));
}
