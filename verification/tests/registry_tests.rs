use hotkey_overlay::load_registry;
use hotkey_overlay::parse_line;

#[test]
fn parse_splits_target_and_label() {
    let line = b"notepad.exe::Notes".to_vec();
    let entry = parse_line(&line).unwrap();
    assert_eq!(entry.target, b"notepad.exe".to_vec());
    assert_eq!(entry.label, b"Notes".to_vec());
}

#[test]
fn parse_strips_quotes_from_target() {
    let line = b"\"C:\\Apps\\x.exe\"::MyApp".to_vec();
    let entry = parse_line(&line).unwrap();
    assert_eq!(entry.target, b"C:\\Apps\\x.exe".to_vec());
    assert_eq!(entry.label, b"MyApp".to_vec());
}

#[test]
fn parse_trims_whitespace_from_label() {
    let line = b"calc.exe::  Calc \t".to_vec();
    let entry = parse_line(&line).unwrap();
    assert_eq!(entry.target, b"calc.exe".to_vec());
    assert_eq!(entry.label, b"Calc".to_vec());
}

#[test]
fn parse_splits_at_the_first_delimiter() {
    let line = b"a::b::c".to_vec();
    let entry = parse_line(&line).unwrap();
    assert_eq!(entry.target, b"a".to_vec());
    assert_eq!(entry.label, b"b::c".to_vec());
}

#[test]
fn parse_bare_delimiter_gives_empty_fields() {
    let line = b"::".to_vec();
    let entry = parse_line(&line).unwrap();
    assert!(entry.target.is_empty());
    assert!(entry.label.is_empty());
}

#[test]
fn parse_line_without_delimiter_warns() {
    let line = b"no delimiter here".to_vec();
    let warning = parse_line(&line).unwrap_err();
    assert_eq!(warning.line, line);
}

#[test]
fn parse_empty_line_warns() {
    let line = Vec::new();
    assert!(parse_line(&line).is_err());
}

#[test]
fn load_keeps_every_well_formed_entry_in_order() {
    // Loading a registry of well-formed lines yields exactly as many
    // entries, in input order.
    let lines = vec![
        b"notepad.exe::Notes".to_vec(),
        b"calc.exe::Calc".to_vec(),
        b"\"C:\\Apps\\x.exe\"::MyApp".to_vec(),
    ];
    let (entries, warnings) = load_registry(&lines);
    assert_eq!(entries.len(), 3);
    assert!(warnings.is_empty());
    assert_eq!(entries[0].target, b"notepad.exe".to_vec());
    assert_eq!(entries[0].label, b"Notes".to_vec());
    assert_eq!(entries[1].target, b"calc.exe".to_vec());
    assert_eq!(entries[1].label, b"Calc".to_vec());
    assert_eq!(entries[2].target, b"C:\\Apps\\x.exe".to_vec());
    assert_eq!(entries[2].label, b"MyApp".to_vec());
}

#[test]
fn load_skips_and_reports_malformed_lines() {
    let lines = vec![
        b"notepad.exe::Notes".to_vec(),
        b"broken line".to_vec(),
        b"calc.exe::Calc".to_vec(),
    ];
    let (entries, warnings) = load_registry(&lines);
    assert_eq!(entries.len(), 2);
    assert_eq!(entries[0].label, b"Notes".to_vec());
    assert_eq!(entries[1].label, b"Calc".to_vec());
    assert_eq!(warnings.len(), 1);
    assert_eq!(warnings[0].line, b"broken line".to_vec());
}

#[test]
fn load_of_nothing_is_empty() {
    let (entries, warnings) = load_registry(&Vec::new());
    assert!(entries.is_empty());
    assert!(warnings.is_empty());
}
