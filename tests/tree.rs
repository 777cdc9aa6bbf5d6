use fs_tree::text::{decimal_string, indentation_string};
use fs_tree::{File, FileSystemItem, Folder};

fn sample_root() -> Folder {
    let mut root = Folder::new("root");
    let file1 = File::new("file1.txt", "Hello, world!");
    let file2 = File::new("file2.txt", "Rust is awesome!");
    let mut subfolder = Folder::new("subfolder");
    let file3 = File::new("file3.txt", "Inside subfolder");
    subfolder.add_item(FileSystemItem::File(file3));
    root.add_item(FileSystemItem::File(file1));
    root.add_item(FileSystemItem::File(file2));
    root.add_item(FileSystemItem::Folder(subfolder));
    root
}

#[test]
fn file_size_hello_world() {
    let f = File::new("file1.txt", "Hello, world!");
    assert_eq!(f.get_size(), 13);
}

#[test]
fn file_size_rust_is_awesome() {
    let f = File::new("file2.txt", "Rust is awesome!");
    assert_eq!(f.get_size(), "Rust is awesome!".len());
    assert_eq!(f.get_size(), 16);
}

#[test]
fn file_size_counts_bytes_not_characters() {
    assert_eq!(File::new("a", "héllo").get_size(), 6);
    assert_eq!(File::new("b", "📄").get_size(), 4);
    assert_eq!(File::new("c", "日本語").get_size(), 9);
}

#[test]
fn empty_file_has_size_zero_and_a_line() {
    let f = File::new("empty.txt", "");
    assert_eq!(f.get_size(), 0);
    assert_eq!(f.display(0), vec!["📄 empty.txt (0 bytes)".to_string()]);
    assert_eq!(f.display(2), vec!["    📄 empty.txt (0 bytes)".to_string()]);
}

#[test]
fn empty_folder_has_size_zero() {
    let d = Folder::new("empty");
    assert_eq!(d.get_size(), 0);
    assert_eq!(d.display(0), vec!["📂 empty".to_string()]);
}

#[test]
fn folder_size_is_sum_of_items() {
    let root = sample_root();
    assert_eq!(root.get_size(), 13 + 16 + 16);
    let item = FileSystemItem::Folder(sample_root());
    assert_eq!(item.get_size(), 45);
}

#[test]
fn folder_size_follows_later_additions() {
    let mut d = Folder::new("d");
    d.add_item(FileSystemItem::File(File::new("x", "abc")));
    assert_eq!(d.get_size(), 3);
    d.add_item(FileSystemItem::File(File::new("y", "defgh")));
    assert_eq!(d.get_size(), 8);
}

#[test]
fn sample_tree_display() {
    let root = sample_root();
    let lines = root.display(0);
    let expected: Vec<String> = vec![
        "📂 root".to_string(),
        "  📄 file1.txt (13 bytes)".to_string(),
        "  📄 file2.txt (16 bytes)".to_string(),
        "  📂 subfolder".to_string(),
        "    📄 file3.txt (16 bytes)".to_string(),
    ];
    assert_eq!(lines, expected);
}

#[test]
fn queries_are_repeatable() {
    let root = sample_root();
    let first_size = root.get_size();
    let first_lines = root.display(1);
    assert_eq!(root.get_size(), first_size);
    assert_eq!(root.display(1), first_lines);
    let item = FileSystemItem::File(File::new("f", "text"));
    assert_eq!(item.get_size(), item.get_size());
    assert_eq!(item.display(0), item.display(0));
}

#[test]
fn display_keeps_insertion_order() {
    let mut d = Folder::new("d");
    d.add_item(FileSystemItem::File(File::new("b", "")));
    d.add_item(FileSystemItem::File(File::new("a", "1")));
    d.add_item(FileSystemItem::File(File::new("c", "22")));
    let expected: Vec<String> = vec![
        "📂 d".to_string(),
        "  📄 b (0 bytes)".to_string(),
        "  📄 a (1 bytes)".to_string(),
        "  📄 c (2 bytes)".to_string(),
    ];
    assert_eq!(d.display(0), expected);
}

#[test]
fn duplicate_names_are_kept() {
    let mut d = Folder::new("d");
    d.add_item(FileSystemItem::File(File::new("same", "x")));
    d.add_item(FileSystemItem::File(File::new("same", "yy")));
    assert_eq!(d.get_size(), 3);
    assert_eq!(d.display(0).len(), 3);
}

#[test]
fn nested_display_from_an_indent() {
    let mut inner = Folder::new("inner");
    inner.add_item(FileSystemItem::File(File::new("deep.txt", "0123456789")));
    let mut outer = Folder::new("outer");
    outer.add_item(FileSystemItem::Folder(inner));
    let item = FileSystemItem::Folder(outer);
    let expected: Vec<String> = vec![
        "    📂 outer".to_string(),
        "      📂 inner".to_string(),
        "        📄 deep.txt (10 bytes)".to_string(),
    ];
    assert_eq!(item.display(2), expected);
}

#[test]
fn large_size_is_written_in_decimal() {
    let content = "a".repeat(1000);
    let f = File::new("big", &content);
    assert_eq!(f.get_size(), 1000);
    assert_eq!(f.display(1), vec!["  📄 big (1000 bytes)".to_string()]);
}

#[test]
fn decimal_string_values() {
    assert_eq!(decimal_string(0), "0");
    assert_eq!(decimal_string(7), "7");
    assert_eq!(decimal_string(10), "10");
    assert_eq!(decimal_string(1234567890), "1234567890");
    assert_eq!(decimal_string(usize::MAX), usize::MAX.to_string());
}

#[test]
fn indentation_string_values() {
    assert_eq!(indentation_string(0), "");
    assert_eq!(indentation_string(3), "      ");
}
