use usage_monitor::startup::is_startup_enabled;
use usage_monitor::startup::startup_value;
use usage_monitor::startup::wide_units;

fn wide(text: &str) -> Vec<u16> {
    text.encode_utf16().collect()
}

fn bytes(text: &str) -> Vec<u8> {
    text.encode_utf16().flat_map(|unit| unit.to_le_bytes()).collect()
}

#[test]
fn units_are_read_low_byte_first() {
    assert_eq!(wide_units(&vec![0x41, 0x00, 0xAC, 0x20, 0x7F]), vec![0x0041, 0x20AC]);
    assert_eq!(wide_units(&vec![]), Vec::<u16>::new());
}

#[test]
fn value_that_was_written_is_recognised() {
    let path = wide("C:\\Programs\\M\u{fc}ller\\usage.exe");
    let value = startup_value(&path);
    assert_eq!(value, Some(bytes("C:\\Programs\\M\u{fc}ller\\usage.exe\0")));
    assert!(is_startup_enabled(&value, &path));
}

#[test]
fn value_is_compared_without_case_and_without_zeros() {
    let path = wide("C:\\Programs\\Usage.exe");
    assert!(is_startup_enabled(&Some(bytes("c:\\programs\\usage.EXE\0\0")), &path));
    assert!(is_startup_enabled(&Some(bytes("C:\\Programs\\Usage.exe")), &path));
    assert!(!is_startup_enabled(&Some(bytes("C:\\Other\\Usage.exe\0")), &path));
    assert!(!is_startup_enabled(&Some(bytes("\"C:\\Programs\\Usage.exe\"")), &path));
}

#[test]
fn nothing_read_means_not_enabled() {
    let path = wide("C:\\Programs\\Usage.exe");
    assert!(!is_startup_enabled(&None, &path));
    assert!(!is_startup_enabled(&Some(vec![]), &path));
    assert!(!is_startup_enabled(&Some(bytes("\0")), &vec![]));
    assert_eq!(startup_value(&vec![]), None);
}

#[test]
fn units_without_a_partner_read_as_replacements() {
    let value = |units: &[u16]| -> Option<Vec<u8>> {
        Some(units.iter().flat_map(|unit| unit.to_le_bytes()).collect())
    };
    let replaced = wide("a\u{fffd}");
    assert!(is_startup_enabled(&value(&[0x61, 0xD83D]), &replaced));
    assert!(is_startup_enabled(&value(&[0x61, 0xD83D, 0]), &replaced));
    assert!(is_startup_enabled(&value(&[0x61, 0xDE00]), &replaced));
    assert!(!is_startup_enabled(&value(&[0x61, 0xD83D, 0xDE00]), &replaced));
    assert!(is_startup_enabled(&value(&[0x61, 0xD83D, 0xDE00]), &wide("a\u{1f600}")));
    let path = vec![0x61, 0xD83D];
    assert!(is_startup_enabled(&startup_value(&path), &path));
}

#[test]
fn path_that_ends_in_a_zero_is_not_recognised() {
    let path = wide("C:\\a.exe\0");
    assert!(!is_startup_enabled(&startup_value(&path), &path));
}
