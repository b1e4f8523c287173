use cap_std_ext::dirext::CapStdExtDirExt;
use cap_std_ext::RootDir;

#[test]
fn test_rootdir_open() {
    let td = cap_tempfile::TempDir::new(cap_std::ambient_authority()).unwrap();
    let root = RootDir::new(&td, ".").unwrap();

    assert!(root.open_optional("foo").unwrap().is_none());

    td.create_dir("etc").unwrap();
    td.create_dir_all("usr/lib").unwrap();

    let authjson = "usr/lib/auth.json";
    assert!(root.open(authjson).is_err());
    assert!(root.open_optional(authjson).unwrap().is_none());
    td.write(authjson, "auth contents").unwrap();
    assert!(root.open_optional(authjson).unwrap().is_some());
    let contents = root.read_to_string(authjson).unwrap();
    assert_eq!(&contents, "auth contents");

    td.symlink_contents("/usr/lib/auth.json", "etc/auth.json").unwrap();

    let contents = root.read_to_string("/etc/auth.json").unwrap();
    assert_eq!(&contents, "auth contents");

    // But a plain capability handle refuses the absolute symlink.
    assert!(td.read_to_string("etc/auth.json").is_err());
}

#[test]
fn test_rootdir_escape_symlink() {
    // A symlink whose target climbs out of the root never reaches the
    // real filesystem: resolution is clamped to the root, where the
    // target does not exist.
    let td = cap_tempfile::TempDir::new(cap_std::ambient_authority()).unwrap();
    let root = RootDir::new(&td, ".").unwrap();
    td.symlink_contents("../../etc/passwd", "sneaky").unwrap();
    assert!(root.open("sneaky").is_err());
    assert!(root.open_optional("sneaky").unwrap().is_none());
}

#[test]
fn test_rootdir_entries() {
    let td = cap_tempfile::TempDir::new(cap_std::ambient_authority()).unwrap();
    let root = RootDir::new(&td, ".").unwrap();

    td.create_dir("etc").unwrap();
    td.create_dir_all("usr/lib").unwrap();

    let ents = root.entries().unwrap();
    assert_eq!(ents.len(), 2);
    let subents = root.read_dir("usr").unwrap();
    assert_eq!(subents.len(), 1);
}

#[test]
fn test_rootdir_reopen() {
    // The unconfined view reaches the same directory and supports writes.
    let td = cap_tempfile::TempDir::new(cap_std::ambient_authority()).unwrap();
    let root = td.open_dir_rooted_ext(".").unwrap();
    let plain = root.reopen_cap_std().unwrap();
    plain.write("w", "written").unwrap();
    assert_eq!(root.read("w").unwrap().as_slice(), b"written");
}

#[test]
fn test_reopen_as_ownedfd() {
    let td = cap_tempfile::TempDir::new(cap_std::ambient_authority()).unwrap();
    let fd = td.reopen_as_ownedfd().unwrap();
    rustix::fs::fsync(fd).unwrap();
}
