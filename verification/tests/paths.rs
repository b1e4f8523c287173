use cap_std_ext::errors::Error;
use cap_std_ext::errors::ErrorKind;
use cap_std_ext::dirext::map_optional;
use cap_std_ext::pathutil::format_u32_decimal;
use cap_std_ext::pathutil::join_path;
use cap_std_ext::pathutil::split_parent_file_name;
use cap_std_ext::pathutil::synthesize_proc_path;
use cap_std_ext::pathutil::validate_relpath_no_uplinks;

#[test]
fn test_validate_relpath_no_uplinks() {
    let ok_cases = ["foo", "foo/bar", "foo/bar/"];
    let err_cases = ["/foo", "/", "../foo", "foo/../bar"];

    for case in ok_cases {
        assert!(validate_relpath_no_uplinks(case).is_ok());
    }
    for case in err_cases {
        assert!(validate_relpath_no_uplinks(case).is_err());
    }
}

#[test]
fn test_split_parent_file_name() {
    assert_eq!(split_parent_file_name("a/b"), Some(("a", "b")));
    assert_eq!(split_parent_file_name("c"), Some(("", "c")));
    assert_eq!(split_parent_file_name("a/b/"), Some(("a", "b")));
    assert_eq!(split_parent_file_name("a/b/c"), Some(("a/b", "c")));
    assert_eq!(split_parent_file_name("/x"), Some(("/", "x")));
    assert_eq!(split_parent_file_name(""), None);
    assert_eq!(split_parent_file_name("/"), None);
    assert_eq!(split_parent_file_name(".."), None);
    assert_eq!(split_parent_file_name("a/.."), None);
    assert_eq!(split_parent_file_name("."), None);
}

#[test]
fn test_format_u32_decimal() {
    assert_eq!(format_u32_decimal(0), "0");
    assert_eq!(format_u32_decimal(7), "7");
    assert_eq!(format_u32_decimal(305), "305");
    assert_eq!(format_u32_decimal(u32::MAX), "4294967295");
}

#[test]
fn test_join_path() {
    assert_eq!(join_path("", "x"), "x");
    assert_eq!(join_path("a", "x"), "a/x");
    assert_eq!(join_path("a/b", "x"), "a/b/x");
}

#[test]
fn test_synthesize_proc_path() {
    assert_eq!(synthesize_proc_path(5, "a/b").unwrap(), "/proc/self/fd/5/a/b");
    assert_eq!(synthesize_proc_path(41, ".").unwrap(), "/proc/self/fd/41/.");
    let e = synthesize_proc_path(5, "/abs").err().unwrap();
    assert_eq!(e.kind(), ErrorKind::PermissionDenied);
    let e = synthesize_proc_path(5, "up/../link").err().unwrap();
    assert_eq!(e.kind(), ErrorKind::PermissionDenied);
}

#[test]
fn test_map_optional() {
    let ok: Result<u32, Error> = Ok(7);
    assert_eq!(map_optional(ok).unwrap(), Some(7));
    let missing: Result<u32, Error> = Err(Error::new(ErrorKind::NotFound, "gone".to_string()));
    assert_eq!(map_optional(missing).unwrap(), None);
    let denied: Result<u32, Error> = Err(Error::new(ErrorKind::PermissionDenied, "no".to_string()));
    let e = map_optional(denied).err().unwrap();
    assert_eq!(e.kind(), ErrorKind::PermissionDenied);
    assert_eq!(e.to_message(), "no");
}
