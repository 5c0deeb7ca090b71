use mcping::text::{chars_of, field_bounds, same_text, to_i64, to_u16};

const NUMBERS: [&str; 30] = [
    "0",
    "-0",
    "+0",
    "7",
    "007",
    "-42",
    "+42",
    "65535",
    "65536",
    "+65535",
    "-1",
    "00000000000000000000065535",
    "9223372036854775807",
    "9223372036854775808",
    "-9223372036854775808",
    "-9223372036854775809",
    "99999999999999999999",
    "18446744073709551616",
    "",
    "+",
    "-",
    "--1",
    "+-1",
    " 1",
    "1 ",
    "1_000",
    "0x10",
    "１２",
    "12a",
    "1.5",
];

#[test]
fn numbers_are_read_as_the_standard_library_reads_them() {
    for text in NUMBERS {
        assert_eq!(to_i64(text), text.parse::<i64>().ok(), "{text:?}");
        assert_eq!(to_u16(text), text.parse::<u16>().ok(), "{text:?}");
    }
}

#[test]
fn numbers_at_the_limits() {
    assert_eq!(to_i64("9223372036854775807"), Some(i64::MAX));
    assert_eq!(to_i64("-9223372036854775808"), Some(i64::MIN));
    assert_eq!(to_i64("9223372036854775808"), None);
    assert_eq!(to_u16("65535"), Some(u16::MAX));
    assert_eq!(to_u16("65536"), None);
    assert_eq!(to_u16("-0"), None);
}

#[test]
fn fields_are_split_as_the_standard_library_splits_them() {
    for text in ["", ";", "a", "a;b", "a;;b", ";a;", ";;;", "é;ü;", "a;b;c;d;e;f;g;h;i;j;k;l;m"] {
        let chars = chars_of(text);
        let fields: Vec<String> = field_bounds(&chars, ';')
            .into_iter()
            .map(|(from, to)| chars[from..to].iter().collect())
            .collect();
        let expected: Vec<String> = text.split(';').map(str::to_string).collect();
        assert_eq!(fields, expected, "{text:?}");
    }
}

#[test]
fn characters_and_equality() {
    assert_eq!(chars_of("héllo"), vec!['h', 'é', 'l', 'l', 'o']);
    assert_eq!(chars_of(""), Vec::<char>::new());
    assert!(same_text("abc", "abc"));
    assert!(same_text("", ""));
    assert!(!same_text("abc", "abd"));
    assert!(!same_text("abc", "ab"));
    assert!(!same_text("ab", "abc"));
}
