use systemd_language_server::scanner::get_current_section;

const UNIT: &str = "# c\n[Unit]\nDescription=x\n\n[Service]\nType=simple\n[Mount\nWhat=/dev/sda1\n";

#[test]
fn no_section_before_the_first_header() {
    assert_eq!(get_current_section(UNIT, 0), None);
}

#[test]
fn header_line_is_in_its_own_section() {
    assert_eq!(get_current_section(UNIT, 1), Some("Unit".to_string()));
    assert_eq!(get_current_section(UNIT, 4), Some("Service".to_string()));
}

#[test]
fn section_reaches_to_the_next_header() {
    assert_eq!(get_current_section(UNIT, 2), Some("Unit".to_string()));
    assert_eq!(get_current_section(UNIT, 3), Some("Unit".to_string()));
    assert_eq!(get_current_section(UNIT, 5), Some("Service".to_string()));
}

#[test]
fn unterminated_header_opens_no_section() {
    assert_eq!(get_current_section(UNIT, 6), Some("Service".to_string()));
    assert_eq!(get_current_section(UNIT, 7), Some("Service".to_string()));
    assert_eq!(get_current_section("[Un", 0), None);
}

#[test]
fn line_past_the_end_has_no_section() {
    assert_eq!(get_current_section(UNIT, 8), None);
    assert_eq!(get_current_section(UNIT, usize::MAX), None);
    assert_eq!(get_current_section("[Unit]\n", 1), None);
}

#[test]
fn empty_text_has_no_section() {
    assert_eq!(get_current_section("", 0), None);
    assert_eq!(get_current_section("", 7), None);
}

#[test]
fn header_is_recognised_after_trimming() {
    assert_eq!(get_current_section("  [Unit] \t\nA=b\n", 1), Some("Unit".to_string()));
    assert_eq!(get_current_section("[Unit]\r\nA=b\r\n", 1), Some("Unit".to_string()));
}

#[test]
fn name_is_trimmed() {
    assert_eq!(get_current_section("  [ Unit ]  ", 0), Some("Unit".to_string()));
    assert_eq!(get_current_section("[ Unit ]\n", 0), Some("Unit".to_string()));
    assert_eq!(get_current_section("[\tMy Section\u{a0}]\nA=b\n", 1), Some("My Section".to_string()));
    assert_eq!(get_current_section("[   ]\n", 0), Some("".to_string()));
}

#[test]
fn name_is_what_stands_between_the_brackets() {
    assert_eq!(get_current_section("[]\n", 0), Some("".to_string()));
    assert_eq!(get_current_section("[a]b]\n", 0), Some("a]b".to_string()));
    assert_eq!(get_current_section("[Ünit]\n", 0), Some("Ünit".to_string()));
}

#[test]
fn lone_bracket_is_no_header() {
    assert_eq!(get_current_section("[\n", 0), None);
    assert_eq!(get_current_section("]\n", 0), None);
    assert_eq!(get_current_section("[Unit] x\n", 0), None);
}

#[test]
fn repeated_names_are_not_merged() {
    let text = "[Unit]\n[Service]\n[Unit]\nA=b\n";
    assert_eq!(get_current_section(text, 1), Some("Service".to_string()));
    assert_eq!(get_current_section(text, 3), Some("Unit".to_string()));
}

#[test]
fn same_query_gives_same_section() {
    let first = get_current_section(UNIT, 5);
    let between = get_current_section(UNIT, 2);
    let again = get_current_section(UNIT, 5);
    assert_eq!(first, again);
    assert_eq!(between, Some("Unit".to_string()));
    assert_eq!(get_current_section(UNIT, 2), between);
}
