use std::io::{Cursor, Read};

use customs::archive::Archive;

fn build(items: &[(&str, bool, &[u8])]) -> Vec<u8> {
    let mut a = Archive::new();
    for (path, is_dir, data) in items {
        a.add(path, *is_dir, data).unwrap();
    }
    a.finish().unwrap()
}

#[test]
fn archive_holds_stored_records_in_order() {
    let bytes = build(&[
        ("manifest.toml", false, b"[plugin]\n"),
        ("src", true, b""),
        ("src/main.luau", false, b"print(1)"),
        ("empty.txt", false, b""),
    ]);
    let mut zip = zip::ZipArchive::new(Cursor::new(bytes)).unwrap();
    let names: Vec<String> = (0..zip.len()).map(|i| zip.by_index(i).unwrap().name().to_string()).collect();
    assert_eq!(names, vec!["manifest.toml", "src/", "src/main.luau", "empty.txt"]);
    let mut f = zip.by_name("src/main.luau").unwrap();
    assert_eq!(f.compression(), zip::CompressionMethod::Stored);
    let mut text = String::new();
    f.read_to_string(&mut text).unwrap();
    assert_eq!(text, "print(1)");
    drop(f);
    assert!(zip.by_name("src/").unwrap().is_dir());
    assert_eq!(zip.by_name("empty.txt").unwrap().size(), 0);
}

#[test]
fn equal_records_give_equal_bytes() {
    let items: [(&str, bool, &[u8]); 2] = [("a", true, b""), ("a/b.txt", false, b"hello")];
    assert_eq!(build(&items), build(&items));
}

#[test]
fn empty_archive_is_valid() {
    let bytes = build(&[]);
    let zip = zip::ZipArchive::new(Cursor::new(bytes)).unwrap();
    assert_eq!(zip.len(), 0);
}

#[test]
fn directory_data_is_dropped() {
    let bytes = build(&[("assets", true, b"ignored")]);
    let mut zip = zip::ZipArchive::new(Cursor::new(bytes)).unwrap();
    let d = zip.by_index(0).unwrap();
    assert_eq!(d.name(), "assets/");
    assert_eq!(d.size(), 0);
}

#[test]
fn many_records_are_all_accepted() {
    let mut a = Archive::new();
    for i in 0..50 {
        let name = format!("d{i}");
        a.add(&name, true, b"").unwrap();
        a.add(&format!("{name}/f.txt"), false, name.as_bytes()).unwrap();
    }
    let bytes = a.finish().unwrap();
    let zip = zip::ZipArchive::new(Cursor::new(bytes)).unwrap();
    assert_eq!(zip.len(), 100);
}
