use termbox::{color, convert_background, convert_color, convert_foreground, convert_style, style};

fn all_colors() -> Vec<color> {
    vec![
        color::black,
        color::red,
        color::green,
        color::yellow,
        color::blue,
        color::magenta,
        color::cyan,
        color::white,
    ]
}

fn all_styles() -> Vec<style> {
    vec![style::normal, style::bold, style::underline, style::bold_underline]
}

#[test]
fn color_codes_match_the_fixed_table() {
    assert_eq!(convert_color(color::black), 0x00);
    assert_eq!(convert_color(color::red), 0x01);
    assert_eq!(convert_color(color::green), 0x02);
    assert_eq!(convert_color(color::yellow), 0x03);
    assert_eq!(convert_color(color::blue), 0x04);
    assert_eq!(convert_color(color::magenta), 0x05);
    assert_eq!(convert_color(color::cyan), 0x06);
    assert_eq!(convert_color(color::white), 0x07);
}

#[test]
fn color_codes_unique_in_range_and_stable() {
    let colors = all_colors();
    for &c in &colors {
        let code = convert_color(c);
        assert!(code <= 0x07);
        assert_eq!(code, convert_color(c));
        assert_eq!(code, convert_color(c));
    }
    for i in 0..colors.len() {
        for j in 0..colors.len() {
            if i != j {
                assert_ne!(convert_color(colors[i]), convert_color(colors[j]));
            }
        }
    }
}

#[test]
fn style_codes_match_the_fixed_table() {
    assert_eq!(convert_style(style::normal), 0x00);
    assert_eq!(convert_style(style::bold), 0x10);
    assert_eq!(convert_style(style::underline), 0x20);
    assert_eq!(convert_style(style::bold_underline), 0x30);
}

#[test]
fn style_codes_unique_and_in_the_style_mask() {
    let styles = all_styles();
    for &s in &styles {
        let code = convert_style(s);
        assert!(code == 0x00 || code == 0x10 || code == 0x20 || code == 0x30);
        assert_eq!(code, convert_style(s));
    }
    for i in 0..styles.len() {
        for j in 0..styles.len() {
            if i != j {
                assert_ne!(convert_style(styles[i]), convert_style(styles[j]));
            }
        }
    }
}

#[test]
fn packed_word_recovers_both_codes_for_all_pairs() {
    for &c in &all_colors() {
        for &s in &all_styles() {
            let word = convert_color(c) | convert_style(s);
            assert_eq!(word & 0x0F, convert_color(c));
            assert_eq!(word & 0x30, convert_style(s));
            assert_eq!(convert_foreground(s, c), word);
        }
    }
}

#[test]
fn background_carries_color_only() {
    for &c in &all_colors() {
        assert_eq!(convert_background(c), convert_color(c));
    }
}
