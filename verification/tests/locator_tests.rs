use waybar_togle::locator::cursorpos_y;
use waybar_togle::locator::seats_cursor_y;
use waybar_togle::text::find_char;
use waybar_togle::text::find_sub;
use waybar_togle::text::str_eq;
use waybar_togle::text::trim;

#[test]
fn cursorpos_second_field_is_y() {
    assert_eq!(cursorpos_y("123, 456\n"), Some(456));
    assert_eq!(cursorpos_y("0,0"), Some(0));
    assert_eq!(cursorpos_y("12,34,56"), Some(34));
    assert_eq!(cursorpos_y("640, -3"), Some(-3));
}

#[test]
fn cursorpos_garbled_output_is_rejected() {
    assert_eq!(cursorpos_y(""), None);
    assert_eq!(cursorpos_y("no comma here"), None);
    assert_eq!(cursorpos_y("12,"), None);
    assert_eq!(cursorpos_y("12, y"), None);
    assert_eq!(cursorpos_y("12, 4 5"), None);
}

#[test]
fn seats_reads_digit_run_after_key() {
    assert_eq!(seats_cursor_y("[{\"cursor_y\":42}]"), Some(42));
    assert_eq!(seats_cursor_y("{\"cursor_x\":7,\"cursor_y\":0,\"z\":1}"), Some(0));
}

#[test]
fn seats_first_key_occurrence_wins() {
    assert_eq!(seats_cursor_y("{\"cursor_y\":3},{\"cursor_y\":9}"), Some(3));
}

#[test]
fn seats_garbled_output_is_rejected() {
    assert_eq!(seats_cursor_y(""), None);
    assert_eq!(seats_cursor_y("{\"cursor_x\":42}"), None);
    // A digit run that reaches the end of the text has no terminator.
    assert_eq!(seats_cursor_y("{\"cursor_y\":42"), None);
    // A space after the colon stops the digit run at once.
    assert_eq!(seats_cursor_y("{\"cursor_y\": 42}"), None);
    // Too large for an i32.
    assert_eq!(seats_cursor_y("{\"cursor_y\":99999999999}"), None);
}

#[test]
fn find_sub_first_occurrence() {
    assert_eq!(find_sub("abcabc", "ca"), Some(2));
    assert_eq!(find_sub("abcabc", "abc"), Some(0));
    assert_eq!(find_sub("abc", "abcd"), None);
    assert_eq!(find_sub("abc", ""), Some(0));
    assert_eq!(find_sub("abc", "x"), None);
}

#[test]
fn find_char_from_offset() {
    assert_eq!(find_char("a,b,c", ',', 0), Some(1));
    assert_eq!(find_char("a,b,c", ',', 2), Some(3));
    assert_eq!(find_char("a,b,c", ',', 4), None);
}

#[test]
fn trim_strips_ascii_whitespace() {
    assert_eq!(trim("  456\n"), "456");
    assert_eq!(trim("\t x y \r\n"), "x y");
    assert_eq!(trim("bare"), "bare");
    assert_eq!(trim("   "), "");
    assert_eq!(trim(""), "");
}

#[test]
fn str_eq_compares_contents() {
    assert!(str_eq("--config", "--config"));
    assert!(!str_eq("-c", "-s"));
    assert!(!str_eq("-c", "-cc"));
}
