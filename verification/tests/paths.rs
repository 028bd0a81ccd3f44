use chagaller::paths::{extension, file_stem, is_image_file};

#[test]
fn extension_is_what_follows_the_last_dot() {
    assert_eq!(extension("photos/a.jpg"), Some("jpg".to_string()));
    assert_eq!(extension("photos/archive.tar.gz"), Some("gz".to_string()));
    assert_eq!(extension("photos/a."), Some("".to_string()));
}

#[test]
fn extension_is_absent_without_a_dot_or_a_file_name() {
    assert_eq!(extension("photos/readme"), None);
    assert_eq!(extension("photos/.hidden"), None);
    assert_eq!(extension(""), None);
    assert_eq!(extension("/"), None);
    assert_eq!(extension("photos/.."), None);
}

#[test]
fn file_stem_is_what_precedes_the_last_dot() {
    assert_eq!(file_stem("photos/a.jpg"), Some("a".to_string()));
    assert_eq!(file_stem("photos/archive.tar.gz"), Some("archive.tar".to_string()));
    assert_eq!(file_stem("photos/readme"), Some("readme".to_string()));
    assert_eq!(file_stem("photos/.hidden"), Some(".hidden".to_string()));
    assert_eq!(file_stem("photos/.hidden.jpg"), Some(".hidden".to_string()));
    assert_eq!(file_stem("photos/.."), None);
}

#[test]
fn file_stem_and_extension_agree_with_std() {
    let paths = [
        "a.jpg", "dir/b.jpeg", "c", ".d", ".e.f", "g.", "h.i.j", "dir.k/l", "m.jpg/", "dir/n.jpg/.",
        "éa.ü", "..", "/", "",
    ];
    for path in paths {
        let std_path = std::path::Path::new(path);
        assert_eq!(
            file_stem(path),
            std_path.file_stem().map(|s| s.to_str().unwrap().to_string())
        );
        assert_eq!(
            extension(path),
            std_path.extension().map(|s| s.to_str().unwrap().to_string())
        );
    }
}

#[test]
fn image_files_have_the_exact_extensions() {
    assert!(is_image_file("a.jpg"));
    assert!(is_image_file("dir/b.jpeg"));
    assert!(!is_image_file("c.png"));
    assert!(!is_image_file("d.JPG"));
    assert!(!is_image_file("e.Jpeg"));
    assert!(!is_image_file("f.jpg.txt"));
    assert!(!is_image_file("jpg"));
    assert!(!is_image_file(".jpg"));
    assert!(!is_image_file("g.jpgx"));
    assert!(!is_image_file("h"));
}

#[test]
fn file_name_is_put_together_from_stem_and_extension() {
    for name in ["a.jpg", "archive.tar.gz", "b.", ".c.d"] {
        let stem = file_stem(name).unwrap();
        let ext = extension(name).unwrap();
        assert_eq!(format!("{}.{}", stem, ext), name);
    }
    for name in ["readme", ".hidden"] {
        assert_eq!(file_stem(name), Some(name.to_string()));
        assert_eq!(extension(name), None);
    }
}
