use cap_std::fs::Dir;
use cap_std::fs::Permissions;
use cap_std::fs::PermissionsExt;
use cap_std_ext::dirext::CapStdExtDirExt;
use cap_std_ext::errors::Error;
use cap_std_ext::errors::ErrorKind;
use cap_std_ext::tempfile::LinkableTempfile;

/// The default mode for a file, as the process umask leaves it.
fn default_mode(d: &Dir) -> Permissions {
    let f = cap_tempfile::TempFile::new(d).unwrap();
    f.as_file().metadata().unwrap().permissions()
}

#[test]
fn link_tempfile_with() {
    let td = cap_tempfile::tempdir(cap_std::ambient_authority()).unwrap();
    let p = "foo";
    td.atomic_replace_with(p, |f: &LinkableTempfile| f.write_all(b"hello world\n"))
        .unwrap();
    assert_eq!(td.read_to_string(p).unwrap().as_str(), "hello world\n");
    let default_perms = default_mode(&td);
    assert_eq!(td.metadata(p).unwrap().permissions(), default_perms);

    td.atomic_replace_with(p, |f: &LinkableTempfile| f.write_all(b"atomic replacement\n"))
        .unwrap();
    assert_eq!(td.read_to_string(p).unwrap().as_str(), "atomic replacement\n");

    let e = td
        .atomic_replace_with(p, |f: &LinkableTempfile| -> Result<(), Error> {
            f.write_all(b"should not be written")?;
            Err(Error::new(ErrorKind::Other, "oops".to_string()))
        })
        .err()
        .unwrap();
    assert!(e.to_message().contains("oops"));
    // The destination was not touched
    assert_eq!(td.read_to_string(p).unwrap().as_str(), "atomic replacement\n");

    td.atomic_write(p, b"atomic replacement write\n").unwrap();
    assert_eq!(td.read_to_string(p).unwrap().as_str(), "atomic replacement write\n");
    assert_eq!(td.metadata(p).unwrap().permissions(), default_perms);

    td.atomic_write_with_perms(p, b"atomic replacement 3\n", Permissions::from_mode(0o700))
        .unwrap();
    assert_eq!(td.read_to_string(p).unwrap().as_str(), "atomic replacement 3\n");
    assert_eq!(td.metadata(p).unwrap().permissions().mode() & 0o777, 0o700);

    // The executable bit on an existing file is preserved
    assert_eq!(td.metadata(p).unwrap().permissions().mode() & 0o700, 0o700);
    td.atomic_write(p, b"atomic replacement 4\n").unwrap();
    assert_eq!(td.read_to_string(p).unwrap().as_str(), "atomic replacement 4\n");
    assert_eq!(td.metadata(p).unwrap().permissions().mode() & 0o777, 0o700);

    // But permissions of a symlink are ignored (both existing and broken)
    td.remove_file(p).unwrap();
    let p2 = "bar";
    td.atomic_write_with_perms(p2, b"link target", Permissions::from_mode(0o755))
        .unwrap();
    td.symlink(p2, p).unwrap();
    td.atomic_write(p, b"atomic replacement symlink\n").unwrap();
    assert_eq!(td.metadata(p).unwrap().permissions(), default_perms);
    // And break the link
    td.remove_file(p2).unwrap();
    td.atomic_write(p, b"atomic replacement symlink\n").unwrap();
    assert_eq!(td.metadata(p).unwrap().permissions(), default_perms);

    // Also mode 0600
    td.atomic_write_with_perms(p, b"self-only file", Permissions::from_mode(0o600))
        .unwrap();
    assert_eq!(td.metadata(p).unwrap().permissions().mode() & 0o777, 0o600);
    td.atomic_write(p, b"self-only file v2").unwrap();
    assert_eq!(td.metadata(p).unwrap().permissions().mode() & 0o777, 0o600);
    // But it can be overridden
    td.atomic_write_with_perms(p, b"self-only file v3", Permissions::from_mode(0o640))
        .unwrap();
    assert_eq!(td.metadata(p).unwrap().permissions().mode() & 0o777, 0o640);
}

#[test]
fn test_atomic_write_roundtrip() {
    // Writing arbitrary content with chosen permissions, then reading it
    // back, yields exactly that content and those permissions.
    let td = cap_tempfile::tempdir(cap_std::ambient_authority()).unwrap();
    let content: Vec<u8> = (0u16..=255).map(|b| b as u8).collect();
    td.atomic_write_with_perms("blob", &content, Permissions::from_mode(0o640))
        .unwrap();
    assert_eq!(td.read("blob").unwrap(), content);
    assert_eq!(td.metadata("blob").unwrap().permissions().mode() & 0o777, 0o640);
}

#[test]
fn test_writer_error_leaves_destination_absent() {
    // A writer failure never creates the destination.
    let td = cap_tempfile::tempdir(cap_std::ambient_authority()).unwrap();
    let r = td.atomic_replace_with("never", |f: &LinkableTempfile| -> Result<(), Error> {
        f.write_all(b"junk")?;
        Err(Error::new(ErrorKind::Other, "abort".to_string()))
    });
    assert!(r.is_err());
    assert!(td.metadata_optional("never").unwrap().is_none());
    // And no scratch entries were left behind.
    assert_eq!(td.entries().unwrap().count(), 0);
}

#[test]
fn test_atomic_write_invalid_destination() {
    let td = cap_tempfile::tempdir(cap_std::ambient_authority()).unwrap();
    let e = td.atomic_write("", b"x").err().unwrap();
    assert_eq!(e.kind(), ErrorKind::InvalidInput);
    let e = td.atomic_write("..", b"x").err().unwrap();
    assert_eq!(e.kind(), ErrorKind::InvalidInput);
}

#[test]
fn test_emplace_and_replace() {
    let td = cap_tempfile::tempdir(cap_std::ambient_authority()).unwrap();

    // Emplace onto a fresh name succeeds.
    let t = LinkableTempfile::new_in(&td, "dest").unwrap();
    t.write_all(b"first").unwrap();
    t.emplace().unwrap();
    assert_eq!(td.read("dest").unwrap().as_slice(), b"first");

    // Emplace onto an existing destination fails with already-exists and
    // leaves the destination untouched.
    let t = LinkableTempfile::new_in(&td, "dest").unwrap();
    t.write_all(b"second").unwrap();
    let e = t.emplace().err().unwrap();
    assert_eq!(e.kind(), ErrorKind::AlreadyExists);
    assert_eq!(td.read("dest").unwrap().as_slice(), b"first");

    // Replace in the same situation succeeds and overwrites.
    let t = LinkableTempfile::new_in(&td, "dest").unwrap();
    t.write_all(b"third").unwrap();
    t.replace().unwrap();
    assert_eq!(td.read("dest").unwrap().as_slice(), b"third");

    // replace_contents works in a subdirectory path too.
    td.create_dir("sub").unwrap();
    let t = LinkableTempfile::new_in(&td, "sub/inner").unwrap();
    t.replace_contents(b"nested").unwrap();
    assert_eq!(td.read("sub/inner").unwrap().as_slice(), b"nested");

    // replace_contents_using_perms applies the chosen permissions.
    let t = LinkableTempfile::new_in(&td, "dest").unwrap();
    t.replace_contents_using_perms(b"fourth", Permissions::from_mode(0o604))
        .unwrap();
    assert_eq!(td.read("dest").unwrap().as_slice(), b"fourth");
    assert_eq!(td.metadata("dest").unwrap().permissions().mode() & 0o777, 0o604);

    // Abandoning a tempfile leaves no trace under its destination name.
    let t = LinkableTempfile::new_in(&td, "ghost").unwrap();
    t.write_all(b"gone").unwrap();
    t.abandon();
    assert!(td.metadata_optional("ghost").unwrap().is_none());
}
