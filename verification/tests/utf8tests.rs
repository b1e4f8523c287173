use std::collections::BTreeSet;

use cap_std_ext::dirext_utf8::CapStdExtDirExtUtf8;
use cap_std_ext::dirext_utf8::sort_names;

#[test]
fn ensuredir_utf8() {
    let td = cap_tempfile::tempdir(cap_std::ambient_authority()).unwrap();
    let td = &cap_std::fs_utf8::Dir::from_cap_std((&*td).try_clone().unwrap());

    let p = "somedir";
    let b = &cap_std::fs::DirBuilder::new();
    assert!(td.metadata_optional(p).unwrap().is_none());
    assert!(td.symlink_metadata_optional(p).unwrap().is_none());
    assert!(td.ensure_dir_with(p, b).unwrap());
    assert!(td.metadata_optional(p).unwrap().is_some());
    assert!(td.symlink_metadata_optional(p).unwrap().is_some());
    assert!(!td.ensure_dir_with(p, b).unwrap());

    let p = "somedir/without/existing-parent";
    // Fails because the intermediate directory does not exist.
    assert!(td.ensure_dir_with(p, b).is_err());
    // Now create the parent
    assert!(td.ensure_dir_with("somedir/without", b).unwrap());
    assert!(td.ensure_dir_with(p, b).unwrap());
    assert!(!td.ensure_dir_with(p, b).unwrap());

    // A file is not replaced
    let p = "somefile";
    td.write(p, "some file contents").unwrap();
    assert!(td.ensure_dir_with(p, b).is_err());

    // Broken symlinks are not followed and are errors
    let p = "linksrc";
    td.symlink("linkdest", p).unwrap();
    assert!(td.metadata(p).is_err());
    assert!(td.symlink_metadata_optional(p).unwrap().unwrap().is_symlink());
    // Non-broken symlinks are also an error
    assert!(td.ensure_dir_with(p, b).is_err());
    td.create_dir("linkdest").unwrap();
    assert!(td.ensure_dir_with(p, b).is_err());
    assert!(td.metadata_optional(p).unwrap().unwrap().is_dir());
}

#[test]
fn filenames_utf8() {
    let plain = cap_tempfile::tempdir(cap_std::ambient_authority()).unwrap();
    let td = &cap_std::fs_utf8::Dir::from_cap_std((&*plain).try_clone().unwrap());

    let mut expected = BTreeSet::new();
    const N: usize = 20;
    for _ in 0..N {
        let fname = uuid::Uuid::new_v4().to_string();
        td.write(&fname, &fname).unwrap();
        expected.insert(fname);
    }
    let names = td.filenames_sorted().unwrap();
    for (a, b) in expected.iter().zip(names.iter()) {
        assert_eq!(a, b);
    }

    td.create_dir(".foo").unwrap();

    let names = td
        .filenames_filtered_sorted(|_ent, name| !name.starts_with('.'))
        .unwrap();
    assert_eq!(names.len(), N);
    for name in names.iter() {
        assert!(!name.starts_with('.'));
    }
}

#[test]
fn test_sort_names() {
    let names = vec![
        "pear".to_string(),
        "apple".to_string(),
        "fig".to_string(),
        "apple".to_string(),
    ];
    // Exactly the same names come back, duplicates included, in order.
    assert_eq!(sort_names(names), vec!["apple", "apple", "fig", "pear"]);
    assert_eq!(sort_names(Vec::new()), Vec::<String>::new());
}
