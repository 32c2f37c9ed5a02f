use metadump::text::{signed_text, unsigned_text, Indent};

#[test]
fn indent_is_two_spaces_per_level() {
    assert_eq!(Indent(0).to_text(), "");
    assert_eq!(Indent(1).to_text(), "  ");
    assert_eq!(Indent(3).to_text(), "      ");
}

#[test]
fn indent_add_goes_deeper() {
    assert_eq!(Indent(2).add(1).0, 3);
    assert_eq!(Indent(2).add(1).to_text(), "      ");
}

#[test]
fn unsigned_numerals() {
    assert_eq!(unsigned_text(0), "0");
    assert_eq!(unsigned_text(7), "7");
    assert_eq!(unsigned_text(76), "76");
    assert_eq!(unsigned_text(1000), "1000");
    assert_eq!(unsigned_text(u64::MAX), "18446744073709551615");
}

#[test]
fn signed_numerals() {
    assert_eq!(signed_text(0), "0");
    assert_eq!(signed_text(-4), "-4");
    assert_eq!(signed_text(i64::MIN), "-9223372036854775808");
    assert_eq!(signed_text(i64::MAX), "9223372036854775807");
}
