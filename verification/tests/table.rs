use charactermap::table::parse_table;

#[test]
fn lines_are_rows() {
    assert_eq!(
        parse_table(&["000041 First\n000042 Second one\n"], false),
        vec![(0x41, 0x41, "First"), (0x42, 0x42, "Second one")]
    );
    assert_eq!(
        parse_table(&["000000 00007F Basic\n", "000080 0000FF More"], true),
        vec![(0x00, 0x7F, "Basic"), (0x80, 0xFF, "More")]
    );
}

#[test]
fn other_lines_are_no_rows() {
    assert_eq!(
        parse_table(
            &["", "\n\n", "00041 Short\n", "00004G Bad\n", "000041\n", "000041 Good\n", "0x0042 Bad"],
            false
        ),
        vec![(0x41, 0x41, "Good")]
    );
    assert_eq!(parse_table(&["000041 é\n"], false), vec![]);
}

#[test]
fn rows_ascend() {
    assert_eq!(
        parse_table(
            &[
                "000010 00001F A\n00001F 000020 overlaps\n000030 00002F reversed\n\
                 110000 110001 beyond\n000020 000020 B\n",
                "000005 000006 back\n000021 10FFFF C\n"
            ],
            true
        ),
        vec![(0x10, 0x1F, "A"), (0x20, 0x20, "B"), (0x21, 0x10FFFF, "C")]
    );
}
