use remote_bind::codes::decode_line;

#[test]
fn decodes_plain_code() {
    assert_eq!(decode_line("FF629D"), Some("FF629D".to_string()));
}

#[test]
fn trims_and_uppercases() {
    assert_eq!(decode_line("  ff629d\r\n"), Some("FF629D".to_string()));
    assert_eq!(decode_line("\tfFfFfFfF\n"), Some("FFFFFFFF".to_string()));
}

#[test]
fn empty_line_is_noise() {
    assert_eq!(decode_line(""), None);
    assert_eq!(decode_line("   \r\n"), None);
    assert_eq!(decode_line("\t\t"), None);
}

#[test]
fn unrecognized_but_well_formed_code_passes_through() {
    assert_eq!(decode_line("not-hex but a token"), Some("NOT-HEX BUT A TOKEN".to_string()));
}

#[test]
fn inner_whitespace_is_kept() {
    assert_eq!(decode_line(" a b \n"), Some("A B".to_string()));
}

#[test]
fn non_letter_characters_unchanged() {
    assert_eq!(decode_line("1234-_./"), Some("1234-_./".to_string()));
}
