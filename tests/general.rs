use fdroid::decimal::{decimal_string, parse_decimal};
use fdroid::general::{get_file_extension, join_path};

#[test]
fn file_extension_test_1() {
    assert_eq!("svg", get_file_extension("test.svg").unwrap());
}

#[test]
fn file_extension_test_2() {
    assert_eq!(None, get_file_extension("test.."));
}

#[test]
fn file_extension_test_3() {
    assert_eq!(None, get_file_extension(""));
}

#[test]
fn file_extension_test_4() {
    assert_eq!(None, get_file_extension("test"));
}

#[test]
fn file_extension_test_5() {
    assert_eq!(None, get_file_extension(".png"));
}

#[test]
fn file_extension_takes_last_dot() {
    assert_eq!(Some("gz".to_owned()), get_file_extension("archive.tar.gz"));
    assert_eq!(Some("png".to_owned()), get_file_extension("/fdroid/repo/icons/icon.png"));
}

#[test]
fn join_adds_one_separator() {
    assert_eq!("/fdroid/repo", join_path("/fdroid", "repo"));
    assert_eq!("/fdroid/repo", join_path("/fdroid/", "repo"));
    assert_eq!("repo", join_path("", "repo"));
    assert_eq!("/etc", join_path("/fdroid", "/etc"));
}

#[test]
fn decimal_round_values() {
    assert_eq!("0", decimal_string(0));
    assert_eq!("7", decimal_string(7));
    assert_eq!("1234", decimal_string(1234));
    assert_eq!("18446744073709551615", decimal_string(u64::MAX));
}

#[test]
fn decimal_parsing() {
    assert_eq!(Some(42), parse_decimal("42", 100));
    assert_eq!(Some(42), parse_decimal("+42", 100));
    assert_eq!(Some(100), parse_decimal("100", 100));
    assert_eq!(None, parse_decimal("101", 100));
    assert_eq!(None, parse_decimal("", 100));
    assert_eq!(None, parse_decimal("+", 100));
    assert_eq!(None, parse_decimal("-1", 100));
    assert_eq!(None, parse_decimal("4a", 100));
    assert_eq!(None, parse_decimal(" 4", 100));
    assert_eq!(Some(4294967295), parse_decimal("4294967295", u32::MAX as u64));
    assert_eq!(None, parse_decimal("4294967296", u32::MAX as u64));
    assert_eq!(None, parse_decimal("99999999999999999999999", u64::MAX));
}
