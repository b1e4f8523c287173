use cap_std::fs::Dir;
use cap_std_ext::dirext::CapStdExtDirExt;
use cap_std_ext::errors::ErrorKind;
use cap_std_ext::XattrList;

/// List only `user.` attributes, filtering out any system attributes the
/// OS may synthesize.
fn list_user_xattrs(d: &Dir, p: &str) -> Vec<Vec<u8>> {
    let attrs = d.listxattrs(p).unwrap();
    attrs
        .iter()
        .into_iter()
        .filter(|k| k.starts_with(b"user."))
        .collect::<Vec<_>>()
}

#[test]
fn test_xattrs() {
    let td = cap_tempfile::TempDir::new(cap_std::ambient_authority()).unwrap();

    assert!(td.getxattr(".", "user.test").unwrap().is_none());
    td.setxattr(".", "user.test", b"somevalue").unwrap();
    assert_eq!(td.getxattr(".", "user.test").unwrap().unwrap(), b"somevalue");

    match list_user_xattrs(&td, ".").as_slice() {
        [] => unreachable!(),
        [v] => assert_eq!(v.as_slice(), b"user.test"),
        _ => unreachable!(),
    };

    // Multiple xattrs
    td.setxattr(".", "user.othertest", b"anothervalue").unwrap();
    assert_eq!(list_user_xattrs(&td, ".").len(), 2);

    // Operating on a file in a subdirectory
    td.create_dir_all("foo/bar/baz").unwrap();
    let p = "foo/bar/baz/subfile";
    td.write(p, "afile").unwrap();
    td.setxattr(p, "user.filetest", b"filexattr").unwrap();
    assert_eq!(td.getxattr(p, "user.filetest").unwrap().unwrap(), b"filexattr");
    match list_user_xattrs(&td, p).as_slice() {
        [v] => assert_eq!(v.as_slice(), b"user.filetest"),
        _ => unreachable!(),
    };

    // Listing xattrs on a broken symlink: user xattrs cannot be set on a
    // symlink, so only listing is exercised here.
    let p = "foo/bar/baz/somelink";
    td.symlink("enoent", p).unwrap();
    assert!(list_user_xattrs(&td, p).is_empty());
}

#[test]
fn test_big_xattr() {
    let td = cap_tempfile::TempDir::new(cap_std::ambient_authority()).unwrap();

    let bigbuf = b"x".repeat(4000);
    td.setxattr(".", "user.test", &bigbuf).unwrap();
    let v = td.getxattr(".", "user.test").unwrap().unwrap();
    assert_eq!(bigbuf.len(), v.len());
    assert_eq!(bigbuf, v);
}

#[test]
fn test_xattr_escape_attempts() {
    let td = cap_tempfile::TempDir::new(cap_std::ambient_authority()).unwrap();
    for p in ["/etc", "../x", "a/../b"] {
        assert_eq!(td.getxattr(p, "user.test").err().unwrap().kind(), ErrorKind::PermissionDenied);
        assert_eq!(td.listxattrs(p).err().unwrap().kind(), ErrorKind::PermissionDenied);
        assert_eq!(
            td.setxattr(p, "user.test", b"v").err().unwrap().kind(),
            ErrorKind::PermissionDenied
        );
    }
}

#[test]
fn test_xattr_list_split() {
    // The list iterator yields each NUL-separated name once, with the
    // trailing terminator filtered out.
    let list = XattrList::new(b"user.a\0user.bc\0".to_vec());
    let names = list.iter();
    assert_eq!(names.len(), 2);
    assert_eq!(names[0].as_slice(), b"user.a");
    assert_eq!(names[1].as_slice(), b"user.bc");

    let empty = XattrList::new(Vec::new());
    assert!(empty.iter().is_empty());
}
