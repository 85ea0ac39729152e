use keplemon::enums::Classification;
use keplemon::saal::{GetSetString, GETSETSTRLEN};
use keplemon::tle::{name_from_title_line, text_fields, xs_tle_text};

#[test]
fn empty_field_is_all_nul() {
    let field = GetSetString::new();
    let bytes = field.into_bytes();
    assert_eq!(bytes.len(), GETSETSTRLEN + 1);
    assert!(bytes.iter().all(|b| *b == 0));
    assert_eq!(GetSetString::new().value(), "");
}

#[test]
fn field_round_trips_text() {
    let field = GetSetString::from_string("98067A");
    assert_eq!(field.text_len(), 6);
    assert_eq!(field.value(), "98067A");
    let bytes = field.into_bytes();
    assert_eq!(bytes.len(), 513);
    assert_eq!(&bytes[..6], b"98067A");
    assert_eq!(bytes[6], 0);
}

#[test]
fn field_cuts_long_text() {
    let long = "x".repeat(600);
    let field = GetSetString::from_string(&long);
    assert_eq!(field.text_len(), 512);
    assert_eq!(field.value(), "x".repeat(512));
    assert_eq!(field.into_bytes()[512], 0);
}

#[test]
fn field_stops_at_first_nul() {
    let mut bytes = vec![0u8; 513];
    bytes[0] = b'A';
    bytes[1] = b'B';
    bytes[3] = b'C';
    let field = GetSetString::from_bytes(bytes);
    assert_eq!(field.value(), "AB");
}

#[test]
fn field_without_nul_reads_everything() {
    let field = GetSetString::from_bytes(vec![b'Z'; 4]);
    assert_eq!(field.text_len(), 4);
    assert_eq!(field.value(), "ZZZZ");
}

#[test]
fn field_replaces_invalid_utf8() {
    let field = GetSetString::from_bytes(vec![b'a', 0xff, b'b', 0]);
    assert_eq!(field.value(), "a\u{FFFD}b");
}

#[test]
fn title_line_names() {
    assert_eq!(name_from_title_line("0 ISS (ZARYA)   "), "ISS (ZARYA)");
    assert_eq!(name_from_title_line("  ISS (ZARYA)"), "ISS (ZARYA)");
    assert_eq!(name_from_title_line("0"), "0");
    assert_eq!(name_from_title_line("0X"), "0X");
}

#[test]
fn xs_tle_joins_classification_and_designator() {
    assert_eq!(xs_tle_text(Classification::Unclassified, "98067A"), "U98067A");
    assert_eq!(xs_tle_text(Classification::Secret, ""), "S");
}

#[test]
fn text_fields_read_back() {
    let xs = "U98067A      rest";
    let (c, d) = text_fields(xs).unwrap();
    assert_eq!(c, Classification::Unclassified);
    assert_eq!(d, "98067A");
    assert!(text_fields("Q98067A      ").is_err());
}
