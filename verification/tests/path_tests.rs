use jailer::error::Error;
use jailer::error::NulIssue;
use jailer::num::ParseUintError;
use jailer::num::parse_u32;
use jailer::num::parse_u64;
use jailer::num::parse_u8;
use jailer::num::u64_to_string;
use jailer::paths::bytes_to_string;
use jailer::paths::file_name;
use jailer::paths::forbidden_component;
use jailer::paths::path_join;
use jailer::paths::split_nul;
use jailer::paths::str_contains;
use jailer::paths::str_eq;
use jailer::paths::to_cstring;

#[test]
fn test_to_cstring() {
    let cstring_path = to_cstring("some_path").unwrap();
    assert_eq!(cstring_path, b"some_path\0".to_vec());
    let err = to_cstring("some_path\0").unwrap_err();
    assert_eq!(err, Error::CStringParsing);
    assert_eq!(err.message(), "Encountered interior \\0 while parsing a string");
}

#[test]
fn test_cstring_round_trip() {
    // A path without interior NUL survives the trip to NUL-terminated bytes
    // and back.
    let original = "/srv/jailer/firecracker/root";
    let bytes = to_cstring(original).unwrap();
    let content = split_nul(&bytes).unwrap();
    let back = bytes_to_string(&content).unwrap();
    assert_eq!(back, original);
}

#[test]
fn test_split_nul_errors() {
    assert_eq!(
        split_nul(&b"/some/path".to_vec()).unwrap_err(),
        Error::FromBytesWithNul(NulIssue::NotNulTerminated)
    );
    assert_eq!(
        split_nul(&vec![0u8, 102, 111, 111, 0]).unwrap_err(),
        Error::FromBytesWithNul(NulIssue::InteriorNul(0))
    );
    assert_eq!(split_nul(&b"ab\0".to_vec()).unwrap(), b"ab".to_vec());
}

#[test]
fn test_forbidden_component() {
    assert!(forbidden_component("/home"));
    assert!(forbidden_component("./root"));
    assert!(forbidden_component("../file_name"));
    assert!(forbidden_component("x/../y"));
    assert!(forbidden_component("x/.."));
    assert!(forbidden_component("."));
    assert!(forbidden_component(".."));
    assert!(!forbidden_component(""));
    assert!(!forbidden_component("cpuset.cpus"));
    assert!(!forbidden_component("x/./y"));
    assert!(!forbidden_component("x..y"));
    assert!(!forbidden_component("firecracker"));
}

#[test]
fn test_file_name() {
    assert_eq!(file_name("/a/b"), Some("b".to_string()));
    assert_eq!(file_name("/tmp/pseudo_firecracker_exec_file"),
        Some("pseudo_firecracker_exec_file".to_string()));
    assert_eq!(file_name("name"), Some("name".to_string()));
    assert_eq!(file_name("/"), None);
    assert_eq!(file_name(""), None);
}

#[test]
fn test_path_join() {
    assert_eq!(path_join("/", "firecracker"), "/firecracker");
    assert_eq!(path_join("/srv/jailer", "firecracker"), "/srv/jailer/firecracker");
    assert_eq!(path_join("/a/", "b"), "/a/b");
}

#[test]
fn test_str_contains() {
    assert!(str_contains("pseudo_firecracker_exec_file", "firecracker"));
    assert!(!str_contains("foobarbaz", "firecracker"));
    assert!(str_contains("abc", ""));
    assert!(!str_contains("ab", "abc"));
}

#[test]
fn test_str_eq() {
    assert!(str_eq("fsize", "fsize"));
    assert!(!str_eq("fsize", "no-file"));
    assert!(!str_eq("a", "ab"));
}

#[test]
fn test_parse_unsigned() {
    assert_eq!(parse_u64("1048575"), Ok(1048575));
    assert_eq!(parse_u64("+5"), Ok(5));
    assert_eq!(parse_u64(""), Err(ParseUintError::Empty));
    assert_eq!(parse_u64("+"), Err(ParseUintError::InvalidDigit));
    assert_eq!(parse_u64("2.3"), Err(ParseUintError::InvalidDigit));
    assert_eq!(parse_u64("18446744073709551615"), Ok(u64::MAX));
    assert_eq!(parse_u64("18446744073709551616"), Err(ParseUintError::PosOverflow));
    assert_eq!(parse_u32("4294967295"), Ok(u32::MAX));
    assert_eq!(parse_u32("4294967296"), Err(ParseUintError::PosOverflow));
    assert_eq!(parse_u8("2"), Ok(2));
    assert_eq!(parse_u8("256"), Err(ParseUintError::PosOverflow));
    assert_eq!(
        ParseUintError::InvalidDigit.message(),
        "invalid digit found in string"
    );
    assert_eq!(
        ParseUintError::Empty.message(),
        "cannot parse integer from empty string"
    );
    assert_eq!(
        ParseUintError::PosOverflow.message(),
        "number too large to fit in target type"
    );
}

#[test]
fn test_u64_to_string() {
    assert_eq!(u64_to_string(0), "0");
    assert_eq!(u64_to_string(7), "7");
    assert_eq!(u64_to_string(1048575), "1048575");
    assert_eq!(u64_to_string(u64::MAX), "18446744073709551615");
}

#[test]
fn test_bytes_to_string() {
    assert_eq!(bytes_to_string(&b"tap0".to_vec()), Some("tap0".to_string()));
    assert_eq!(bytes_to_string(&vec![0xff, 0xfe]), None);
    assert_eq!(bytes_to_string(&vec![]), Some(String::new()));
}
