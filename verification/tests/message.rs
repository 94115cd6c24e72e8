use unwrap_or_panic::{termination_message, CallSite, Reporting};

fn located(file: &str, line: u32, column: u32) -> String {
    match termination_message(Reporting::Located, &CallSite { file, line, column }) {
        Some(text) => text,
        None => panic!("reporting is on: there must be a message"),
    }
}

#[test]
fn message_gives_file_line_and_column() {
    assert_eq!(located("example", 12, 5), "paniced at example:12:5");
}

#[test]
fn message_holds_each_part_verbatim() {
    let text = located("example", 6120, 37);
    assert!(text.contains("example"));
    assert!(text.contains("6120"));
    assert!(text.contains("37"));
    assert!(text.starts_with("paniced at example:"));
    assert!(text.ends_with(":6120:37"));
}

#[test]
fn message_keeps_its_opening_words_as_they_are_spelt() {
    let text = located("f", 1, 1);
    assert!(text.starts_with("paniced at "));
    assert!(!text.contains("panicked"));
}

#[test]
fn message_is_what_the_standard_formatter_writes() {
    let places = [
        ("src/driver/uart.rs", 48, 9),
        ("src/main.rs", 1, 1),
        ("a/b/c.rs", 100, 200),
        ("deep/in/the/tree/mod.rs", 65535, 65536),
        ("x", u32::MAX, u32::MAX),
        ("y", 0, 0),
    ];
    for (file, line, column) in places {
        assert_eq!(
            located(file, line, column),
            format!("paniced at {}:{}:{}", file, line, column)
        );
    }
}

#[test]
fn message_writes_zero_as_one_digit() {
    assert_eq!(located("z", 0, 0), "paniced at z:0:0");
}

#[test]
fn message_writes_the_largest_numbers_in_full() {
    assert_eq!(
        located("big", u32::MAX, u32::MAX),
        "paniced at big:4294967295:4294967295"
    );
}

#[test]
fn message_takes_an_empty_file_name() {
    assert_eq!(located("", 3, 4), "paniced at :3:4");
}

#[test]
fn message_takes_a_file_name_with_colons_and_other_scripts() {
    assert_eq!(located("C:\\src\\main.rs", 3, 4), "paniced at C:\\src\\main.rs:3:4");
    assert_eq!(located("würfel/源.rs", 10, 20), "paniced at würfel/源.rs:10:20");
}

#[test]
fn message_is_the_same_each_time() {
    assert_eq!(located("example", 12, 5), located("example", 12, 5));
}

#[test]
fn message_differs_where_the_place_differs() {
    let base = located("example", 12, 5);
    assert_ne!(base, located("example", 12, 6));
    assert_ne!(base, located("example", 13, 5));
    assert_ne!(base, located("exemple", 12, 5));
    assert_ne!(located("a", 1, 23), located("a", 12, 3));
    assert_ne!(located("a:1", 2, 3), located("a", 1, 2));
}

#[test]
fn message_is_absent_when_silent() {
    let site = CallSite { file: "example", line: 12, column: 5 };
    assert_eq!(termination_message(Reporting::Silent, &site), None);
}

#[test]
fn message_is_absent_at_every_place_when_silent() {
    let places = [("", 0, 0), ("example", 12, 5), ("x", u32::MAX, u32::MAX)];
    for (file, line, column) in places {
        let site = CallSite { file, line, column };
        assert!(termination_message(Reporting::Silent, &site).is_none());
    }
}

#[test]
fn reporting_compares_by_variant() {
    assert_eq!(Reporting::Silent, Reporting::Silent);
    assert_eq!(Reporting::Located, Reporting::Located);
    assert_ne!(Reporting::Silent, Reporting::Located);
}
