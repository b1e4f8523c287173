use cap_std_ext::dirext::CapStdExtDirExt;
use cap_std_ext::dirext::RemovalAction;
use cap_std_ext::dirext::removal_action;

#[test]
fn optionals() {
    let td = cap_tempfile::tempdir(cap_std::ambient_authority()).unwrap();

    // file
    assert!(td.open_optional("bar").unwrap().is_none());
    assert!(td.metadata_optional("bar").unwrap().is_none());
    assert!(!(td.remove_file_optional("bar").unwrap()));
    td.write("bar", "testcontents").unwrap();
    assert!(td.metadata_optional("bar").unwrap().is_some());
    assert!(td.symlink_metadata_optional("bar").unwrap().is_some());
    assert_eq!(td.read("bar").unwrap().as_slice(), b"testcontents");
    assert!(td.remove_file_optional("bar").unwrap());

    // directory
    assert!(td.open_dir_optional("somedir").unwrap().is_none());
    td.create_dir("somedir").unwrap();
    assert!(td.open_dir_optional("somedir").unwrap().is_some());
}

#[test]
fn read_optional() {
    let td = cap_tempfile::tempdir(cap_std::ambient_authority()).unwrap();

    // Non-existent file returns None
    assert!(td.read_optional("nonexistent").unwrap().is_none());

    // Existing file with string contents
    td.write("test.txt", "hello world").unwrap();
    let contents = td.read_optional("test.txt").unwrap();
    assert!(contents.is_some());
    assert_eq!(contents.unwrap(), b"hello world");

    // Existing file with binary contents
    let binary_data = vec![0u8, 1, 2, 254, 255];
    td.write("test.bin", &binary_data).unwrap();
    let contents = td.read_optional("test.bin").unwrap();
    assert!(contents.is_some());
    assert_eq!(contents.unwrap(), binary_data);

    // Empty file
    td.write("empty.txt", "").unwrap();
    let contents = td.read_optional("empty.txt").unwrap();
    assert!(contents.is_some());
    assert_eq!(contents.unwrap(), b"");

    // File in subdirectory
    td.create_dir_all("sub/dir").unwrap();
    td.write("sub/dir/file.txt", "nested content").unwrap();
    let contents = td.read_optional("sub/dir/file.txt").unwrap();
    assert!(contents.is_some());
    assert_eq!(contents.unwrap(), b"nested content");

    // Non-existent file in existing directory
    assert!(td.read_optional("sub/dir/missing.txt").unwrap().is_none());

    // Large file
    let large_data = vec![b'x'; 10000];
    td.write("large.txt", &large_data).unwrap();
    let contents = td.read_optional("large.txt").unwrap();
    assert!(contents.is_some());
    assert_eq!(contents.unwrap(), large_data);

    // Symlink to existing file
    td.symlink("test.txt", "link_to_test").unwrap();
    let contents = td.read_optional("link_to_test").unwrap();
    assert!(contents.is_some());
    assert_eq!(contents.unwrap(), b"hello world");

    // Broken symlink returns None (not-found is mapped to None)
    td.symlink("nonexistent_target", "broken_link").unwrap();
    assert!(td.read_optional("broken_link").unwrap().is_none());
}

#[test]
fn read_to_string_optional() {
    let td = cap_tempfile::tempdir(cap_std::ambient_authority()).unwrap();

    // Non-existent file returns None
    assert!(td.read_to_string_optional("nonexistent").unwrap().is_none());

    // Existing file with valid UTF-8 string
    td.write("test.txt", "hello world").unwrap();
    let contents = td.read_to_string_optional("test.txt").unwrap();
    assert!(contents.is_some());
    assert_eq!(contents.unwrap(), "hello world");

    // UTF-8 content including unicode
    let unicode_content = "Hello 世界 🌍";
    td.write("unicode.txt", unicode_content).unwrap();
    let contents = td.read_to_string_optional("unicode.txt").unwrap();
    assert!(contents.is_some());
    assert_eq!(contents.unwrap(), unicode_content);

    // Empty file
    td.write("empty.txt", "").unwrap();
    let contents = td.read_to_string_optional("empty.txt").unwrap();
    assert!(contents.is_some());
    assert_eq!(contents.unwrap(), "");

    // File in subdirectory
    td.create_dir_all("sub/dir").unwrap();
    td.write("sub/dir/file.txt", "nested content").unwrap();
    let contents = td.read_to_string_optional("sub/dir/file.txt").unwrap();
    assert!(contents.is_some());
    assert_eq!(contents.unwrap(), "nested content");

    // Non-existent file in existing directory
    assert!(td.read_to_string_optional("sub/dir/missing.txt").unwrap().is_none());

    // A file with invalid UTF-8 is an error
    let invalid_utf8 = vec![0xff, 0xfe, 0xfd];
    td.write("invalid.bin", invalid_utf8.as_slice()).unwrap();
    assert!(td.read_to_string_optional("invalid.bin").is_err());

    // Symlink to existing file
    td.symlink("test.txt", "link_to_test").unwrap();
    let contents = td.read_to_string_optional("link_to_test").unwrap();
    assert!(contents.is_some());
    assert_eq!(contents.unwrap(), "hello world");

    // Broken symlink returns None (not-found is mapped to None)
    td.symlink("nonexistent_target", "broken_link").unwrap();
    assert!(td.read_to_string_optional("broken_link").unwrap().is_none());
}

#[test]
fn ensuredir() {
    let td = cap_tempfile::tempdir(cap_std::ambient_authority()).unwrap();

    let p = "somedir";
    let b = &cap_std::fs::DirBuilder::new();
    assert!(td.metadata_optional(p).unwrap().is_none());
    assert!(td.symlink_metadata_optional(p).unwrap().is_none());
    assert!(td.ensure_dir_with(p, b).unwrap());
    assert!(td.metadata_optional(p).unwrap().is_some());
    assert!(td.symlink_metadata_optional(p).unwrap().is_some());
    assert!(!td.ensure_dir_with(p, b).unwrap());

    let p = "somedir/without/existing-parent";
    // Fails because the intermediate directory does not exist.
    assert!(td.ensure_dir_with(p, b).is_err());
    // Now create the parent
    assert!(td.ensure_dir_with("somedir/without", b).unwrap());
    assert!(td.ensure_dir_with(p, b).unwrap());
    assert!(!td.ensure_dir_with(p, b).unwrap());

    // A file is not replaced
    let p = "somefile";
    td.write(p, "some file contents").unwrap();
    assert!(td.ensure_dir_with(p, b).is_err());

    // Broken symlinks are not followed and are errors
    let p = "linksrc";
    td.symlink("linkdest", p).unwrap();
    assert!(td.metadata(p).is_err());
    assert!(td.symlink_metadata_optional(p).unwrap().unwrap().is_symlink());
    // Non-broken symlinks are also an error
    assert!(td.ensure_dir_with(p, b).is_err());
    td.create_dir("linkdest").unwrap();
    assert!(td.ensure_dir_with(p, b).is_err());
    assert!(td.metadata_optional(p).unwrap().unwrap().is_dir());
}

#[test]
fn test_remove_all_optional() {
    let td = cap_tempfile::tempdir(cap_std::ambient_authority()).unwrap();

    let p = "somedir";
    assert!(!td.remove_all_optional(p).unwrap());
    td.create_dir(p).unwrap();
    assert!(td.remove_all_optional(p).unwrap());
    td.create_dir_all("somedir/foo/bar").unwrap();
    assert!(td.remove_all_optional(p).unwrap());

    // regular file
    td.write(p, "test").unwrap();
    assert!(td.remove_all_optional(p).unwrap());

    // symlinks; broken and not
    let p = "linksrc";
    td.symlink("linkdest", p).unwrap();
    assert!(td.remove_all_optional(p).unwrap());
    td.symlink("linkdest", p).unwrap();
    assert!(td.remove_all_optional(p).unwrap());

    // removing a symlink to a directory leaves the directory alone
    td.create_dir("linkdest").unwrap();
    td.symlink("linkdest", p).unwrap();
    assert!(td.remove_all_optional(p).unwrap());
    assert!(td.metadata_optional("linkdest").unwrap().unwrap().is_dir());
}

#[test]
fn test_removal_action() {
    // Absent: nothing is removed and false is reported.
    assert_eq!(removal_action(false, false), RemovalAction::ReportAbsent);
    assert_eq!(removal_action(false, true), RemovalAction::ReportAbsent);
    // A directory: the whole subtree goes.
    assert_eq!(removal_action(true, true), RemovalAction::RemoveSubtree);
    // A file or symlink: the single entry goes.
    assert_eq!(removal_action(true, false), RemovalAction::RemoveEntry);
}

#[test]
fn test_update_timestamps() {
    let td = cap_tempfile::tempdir(cap_std::ambient_authority()).unwrap();
    assert!(td.update_timestamps("missing").is_err());
    td.write("foo", "hello world").unwrap();
    td.update_timestamps("foo").unwrap();
    assert_eq!(td.read("foo").unwrap().as_slice(), b"hello world");
}
