use thlauh::listing::{file_listing, sort_file_items};
use thlauh::portal::FileItem;

fn entry(name: &str, is_dir: bool, len: u64) -> (String, bool, u64) {
    (name.to_string(), is_dir, len)
}

fn names(items: &[FileItem]) -> Vec<String> {
    items.iter().map(|i| i.name.clone()).collect()
}

#[test]
fn folders_come_first_then_names_without_case() {
    let listing = file_listing(vec![
        entry("b.txt", false, 10),
        entry("A", true, 4096),
        entry("a.txt", false, 5),
        entry("Zdir", true, 4096),
        entry("B.TXT", false, 1),
    ]);
    assert_eq!(names(&listing), vec!["A", "Zdir", "a.txt", "b.txt", "B.TXT"]);
}

#[test]
fn folders_are_listed_with_size_zero() {
    let listing = file_listing(vec![entry("docs", true, 4096), entry("x.bin", false, 77)]);
    assert_eq!(listing[0], FileItem { name: "docs".to_string(), is_directory: true, size: 0 });
    assert_eq!(listing[1], FileItem { name: "x.bin".to_string(), is_directory: false, size: 77 });
}

#[test]
fn names_equal_without_case_keep_their_order() {
    let listing = file_listing(vec![
        entry("README", false, 1),
        entry("readme", false, 2),
        entry("ReadMe", false, 3),
    ]);
    let sizes: Vec<u64> = listing.iter().map(|i| i.size).collect();
    assert_eq!(sizes, vec![1, 2, 3]);
}

#[test]
fn lowercasing_follows_unicode_and_order_follows_code_points() {
    let listing = file_listing(vec![
        entry("\u{c9}t\u{e9}.txt", false, 1),
        entry("f.txt", false, 2),
        entry("Z.txt", false, 3),
    ]);
    assert_eq!(names(&listing), vec!["f.txt", "Z.txt", "\u{c9}t\u{e9}.txt"]);
}

#[test]
fn a_prefix_comes_before_longer_names() {
    let items = vec![
        FileItem { name: "abc".to_string(), is_directory: false, size: 0 },
        FileItem { name: "ab".to_string(), is_directory: false, size: 0 },
        FileItem { name: "".to_string(), is_directory: false, size: 0 },
    ];
    assert_eq!(names(&sort_file_items(items)), vec!["", "ab", "abc"]);
}

#[test]
fn empty_directory_gives_empty_listing() {
    assert!(file_listing(Vec::new()).is_empty());
}

#[test]
fn every_folder_precedes_every_file() {
    let listing = file_listing(vec![
        entry("z", false, 1),
        entry("y", true, 1),
        entry("x", false, 1),
        entry("w", true, 1),
    ]);
    let first_file = listing.iter().position(|i| !i.is_directory).unwrap();
    assert!(listing[first_file..].iter().all(|i| !i.is_directory));
    assert!(listing[..first_file].iter().all(|i| i.is_directory));
    assert_eq!(names(&listing), vec!["w", "y", "x", "z"]);
}
