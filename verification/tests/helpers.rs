use ytconvertv2::helpers::{
    format_color_hex, format_seconds, make_filename_valid, parse_color_hex, parse_formatted_seconds,
};
use ytconvertv2::text::{string_is_blank, trim_string};
use ytconvertv2::theme::{color_to_tuple, tuple_to_color, Color, Theme, ThemeProxy};
use ytconvertv2::updates::starts_with;

#[test]
fn format_seconds_without_hours() {
    assert_eq!(format_seconds(0), "00:00");
    assert_eq!(format_seconds(59), "00:59");
    assert_eq!(format_seconds(61), "01:01");
    assert_eq!(format_seconds(3599), "59:59");
}

#[test]
fn format_seconds_with_hours() {
    assert_eq!(format_seconds(3600), "01:00:00");
    assert_eq!(format_seconds(3661), "01:01:01");
    assert_eq!(format_seconds(360000), "100:00:00");
}

#[test]
fn parse_formatted_seconds_reads_ffmpeg_times() {
    assert_eq!(parse_formatted_seconds("01:01:01".to_string()), Some(3661));
    assert_eq!(parse_formatted_seconds("00:02:03.45".to_string()), Some(123));
    assert_eq!(parse_formatted_seconds("0:0:7".to_string()), Some(7));
    assert_eq!(parse_formatted_seconds("+1:00:00".to_string()), Some(3600));
}

#[test]
fn parse_formatted_seconds_rejects_malformed_times() {
    assert_eq!(parse_formatted_seconds("00:59".to_string()), None);
    assert_eq!(parse_formatted_seconds("".to_string()), None);
    assert_eq!(parse_formatted_seconds("aa:00:00".to_string()), None);
    assert_eq!(parse_formatted_seconds("-1:00:00".to_string()), None);
    assert_eq!(parse_formatted_seconds("N/A".to_string()), None);
}

#[test]
fn parse_formatted_seconds_detects_overflow() {
    assert_eq!(parse_formatted_seconds("18446744073709551615:00:00".to_string()), None);
    assert_eq!(parse_formatted_seconds("00:00:18446744073709551615".to_string()), Some(u64::MAX));
    assert_eq!(parse_formatted_seconds("00:01:18446744073709551615".to_string()), None);
}

#[test]
fn format_then_parse_gives_back_long_durations() {
    for t in [3600u64, 3661, 7322, 86399, 360000] {
        assert_eq!(parse_formatted_seconds(format_seconds(t)), Some(t));
    }
    assert_eq!(parse_formatted_seconds(format_seconds(59)), None);
}

#[test]
fn format_color_hex_is_lowercase_and_padded() {
    assert_eq!(format_color_hex(Color::rgb(255, 215, 0)), "#ffd700");
    assert_eq!(format_color_hex(Color::rgb(1, 2, 3)), "#010203");
}

#[test]
fn parse_color_hex_accepts_with_and_without_hash() {
    assert_eq!(parse_color_hex(&"#ffd700".to_string()), Some(Color::rgb(255, 215, 0)));
    assert_eq!(parse_color_hex(&"FFD700".to_string()), Some(Color::rgb(255, 215, 0)));
    assert_eq!(parse_color_hex(&"#0a0B0c".to_string()), Some(Color::rgb(10, 11, 12)));
    assert_eq!(parse_color_hex(&"#123456789".to_string()), Some(Color::rgb(0x12, 0x34, 0x56)));
    assert_eq!(parse_color_hex(&"#12345".to_string()), Some(Color::rgb(0x12, 0x34, 0x05)));
}

#[test]
fn parse_color_hex_rejects_bad_input() {
    assert_eq!(parse_color_hex(&"#1234".to_string()), None);
    assert_eq!(parse_color_hex(&"".to_string()), None);
    assert_eq!(parse_color_hex(&"#gg0000".to_string()), None);
    assert_eq!(parse_color_hex(&"##ff0000".to_string()), None);
}

#[test]
fn color_hex_round_trip() {
    for c in [Color::rgb(0, 0, 0), Color::rgb(255, 255, 255), Color::rgb(0x25, 0x25, 0x25)] {
        assert_eq!(parse_color_hex(&format_color_hex(c)), Some(c));
    }
}

#[test]
fn make_filename_valid_replaces_each_invalid_char() {
    assert_eq!(make_filename_valid("a<b>c:d\"e/f\\g|h?i*j".to_string()), "a_b_c_d_e_f_g_h_i_j");
    assert_eq!(make_filename_valid("plain name.mp3".to_string()), "plain name.mp3");
    assert_eq!(make_filename_valid("".to_string()), "");
}

#[test]
fn make_filename_valid_is_idempotent() {
    let once = make_filename_valid("What? <Really>".to_string());
    assert_eq!(once, "What_ _Really_");
    assert_eq!(make_filename_valid(once.clone()), once);
}

#[test]
fn trimming_and_blank_text() {
    assert_eq!(trim_string("  https://youtu.be/x \n"), "https://youtu.be/x");
    assert!(string_is_blank(" \t\n"));
    assert!(string_is_blank(""));
    assert!(!string_is_blank(" a "));
    assert_eq!(trim_string("\u{3000}x y\u{2028}\u{a0}"), "x y");
    assert!(string_is_blank("\u{85}\u{2009}"));
    assert_eq!(trim_string("\u{200b}x"), "\u{200b}x");
}

#[test]
fn starts_with_matches_str_starts_with() {
    assert!(starts_with("7.0.2-static", "7.0.2"));
    assert!(starts_with("abc", ""));
    assert!(!starts_with("7.0", "7.0.2"));
    assert!(!starts_with("6.1", "7.0"));
}

#[test]
fn theme_presets() {
    let dark = Theme::dark();
    assert_eq!(dark.background, Color::rgb(0x25, 0x25, 0x25));
    assert_eq!(dark.background_dark, Color::rgb(0x15, 0x15, 0x15));
    assert_eq!(dark.primary, Color::rgb(255, 215, 0));
    let light = Theme::light();
    assert_eq!(light.background, Color::rgb(0xec, 0xec, 0xf0));
    assert_eq!(light.text_primary, Color::rgb(0x1a, 0x1a, 0x1a));
    assert_eq!(light.primary, dark.primary);
}

#[test]
fn theme_proxy_round_trip() {
    let theme = Theme::light();
    let proxy = ThemeProxy::from_theme(&theme);
    assert_eq!(proxy.background, (0xec, 0xec, 0xf0));
    assert_eq!(Theme::from_proxy(&proxy), theme);
    assert_eq!(tuple_to_color(color_to_tuple(Color::rgb(9, 8, 7))), Color::rgb(9, 8, 7));
}
