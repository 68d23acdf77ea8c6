use termbox::{
    cell_write, color, convert_color, convert_style, print_cells, print_ch_cell, style,
};

#[test]
fn printing_hi_issues_exactly_two_cell_writes() {
    let writes = print_cells(0, 0, style::normal, color::white, color::black, "Hi");
    let fg = convert_color(color::white) | convert_style(style::normal);
    let bg = convert_color(color::black);
    assert_eq!(writes.len(), 2);
    assert_eq!(writes[0], cell_write { x: 0, y: 0, ch: 'H' as u32, fg, bg });
    assert_eq!(writes[1], cell_write { x: 1, y: 0, ch: 'i' as u32, fg, bg });
}

#[test]
fn printing_the_empty_string_issues_no_cell_write() {
    let writes = print_cells(3, 7, style::bold, color::red, color::blue, "");
    assert_eq!(writes.len(), 0);
}

#[test]
fn printing_starts_at_x_and_advances_one_column_per_code_point() {
    let writes = print_cells(5, 2, style::bold_underline, color::cyan, color::yellow, "abc");
    let fg = convert_color(color::cyan) | convert_style(style::bold_underline);
    let bg = convert_color(color::yellow);
    assert_eq!(writes.len(), 3);
    assert_eq!(writes[0], cell_write { x: 5, y: 2, ch: 'a' as u32, fg, bg });
    assert_eq!(writes[1], cell_write { x: 6, y: 2, ch: 'b' as u32, fg, bg });
    assert_eq!(writes[2], cell_write { x: 7, y: 2, ch: 'c' as u32, fg, bg });
}

#[test]
fn printing_counts_code_points_not_bytes() {
    let writes = print_cells(0, 0, style::normal, color::green, color::black, "héé");
    assert_eq!(writes.len(), 3);
    assert_eq!(writes[1].ch, 'é' as u32);
    assert_eq!(writes[2].x, 2);
}

#[test]
fn printing_one_character_builds_one_cell_write() {
    let w = print_ch_cell(4, 9, style::underline, color::magenta, color::white, 'Z');
    let fg = convert_color(color::magenta) | convert_style(style::underline);
    let bg = convert_color(color::white);
    assert_eq!(w, cell_write { x: 4, y: 9, ch: 'Z' as u32, fg, bg });
}
