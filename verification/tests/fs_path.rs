use redpowder::fs::path::{
    extension, file_name, is_absolute, is_relative, join, normalize, parent, stem,
};

#[test]
fn absolute_paths_start_with_a_slash() {
    assert!(is_absolute("/"));
    assert!(is_absolute("/apps"));
    assert!(!is_absolute(""));
    assert!(!is_absolute("apps/x"));
    assert!(!is_absolute("./x"));
    assert!(is_relative(""));
    assert!(is_relative("apps"));
    assert!(!is_relative("/apps"));
}

#[test]
fn file_name_is_what_follows_the_last_slash() {
    assert_eq!(file_name("/apps/hello.txt"), "hello.txt");
    assert_eq!(file_name("/apps/"), "");
    assert_eq!(file_name("hello.txt"), "hello.txt");
    assert_eq!(file_name(""), "");
    assert_eq!(file_name("/"), "");
    assert_eq!(file_name("a/b/c"), "c");
    assert_eq!(file_name("/größe/día.txt"), "día.txt");
}

#[test]
fn parent_is_what_stands_before_the_last_slash() {
    assert_eq!(parent("/apps/hello.txt"), "/apps");
    assert_eq!(parent("/apps"), "/");
    assert_eq!(parent("/"), "/");
    assert_eq!(parent("hello.txt"), "");
    assert_eq!(parent(""), "");
    assert_eq!(parent("a/b/c"), "a/b");
    assert_eq!(parent("a/b/"), "a/b");
    assert_eq!(parent("/größe/día.txt"), "/größe");
}

#[test]
fn extension_follows_the_last_dot_of_the_name() {
    assert_eq!(extension("hello.txt"), Some("txt"));
    assert_eq!(extension("hello"), None);
    assert_eq!(extension("/apps/archive.tar.gz"), Some("gz"));
    assert_eq!(extension(".hidden"), None);
    assert_eq!(extension("name."), None);
    assert_eq!(extension("/a.b/c"), None);
    assert_eq!(extension("a.ñ"), Some("ñ"));
    assert_eq!(extension(""), None);
    assert_eq!(extension(".a.b"), Some("b"));
}

#[test]
fn stem_is_the_name_without_its_extension() {
    assert_eq!(stem("hello.txt"), "hello");
    assert_eq!(stem("hello"), "hello");
    assert_eq!(stem("/apps/archive.tar.gz"), "archive.tar");
    assert_eq!(stem(".hidden"), ".hidden");
    assert_eq!(stem("name."), "name");
    assert_eq!(stem("/a.b/c"), "c");
    assert_eq!(stem(""), "");
}

#[test]
fn join_puts_a_slash_between_base_and_child() {
    let mut buf = [0xAAu8; 32];
    assert_eq!(join("/apps", "hello.txt", &mut buf), Some("/apps/hello.txt"));
    assert_eq!(&buf[..15], b"/apps/hello.txt");
    assert_eq!(buf[15], 0xAA);

    let mut buf = [0u8; 32];
    assert_eq!(join("/apps///", "x", &mut buf), Some("/apps/x"));
    let mut buf = [0u8; 32];
    assert_eq!(join("", "x", &mut buf), Some("/x"));
    let mut buf = [0u8; 32];
    assert_eq!(join("/", "x", &mut buf), Some("/x"));
    let mut buf = [0u8; 32];
    assert_eq!(join("a", "", &mut buf), Some("a/"));
}

#[test]
fn join_takes_an_absolute_child_for_itself() {
    let mut buf = [0u8; 32];
    assert_eq!(join("/apps", "/etc/passwd", &mut buf), Some("/etc/passwd"));
    let mut buf = [0u8; 4];
    assert_eq!(join("/apps", "/etc/passwd", &mut buf), Some("/etc"));
    let mut buf = [0u8; 0];
    assert_eq!(join("/apps", "/etc", &mut buf), Some(""));
}

#[test]
fn join_refuses_an_absolute_child_that_is_cut_within_a_character() {
    let mut buf = [0u8; 2];
    assert_eq!(join("/apps", "/é", &mut buf), None);
    assert_eq!(buf, [b'/', 0xC3]);
    let mut buf = [0u8; 3];
    assert_eq!(join("/apps", "/é", &mut buf), Some("/é"));
}

#[test]
fn join_needs_room_for_all_of_the_result() {
    let mut buf = [7u8; 14];
    assert_eq!(join("/apps", "hello.txt", &mut buf), None);
    assert_eq!(buf, [7u8; 14]);
    let mut buf = [7u8; 15];
    assert_eq!(join("/apps", "hello.txt", &mut buf), Some("/apps/hello.txt"));
    let mut buf = [7u8; 0];
    assert_eq!(join("", "", &mut buf), None);
}

#[test]
fn normalize_removes_dots_and_empty_components() {
    let mut buf = [0u8; 256];
    assert_eq!(normalize("/apps/../system/./services", &mut buf), Some("/system/services"));
    let mut buf = [0u8; 256];
    assert_eq!(normalize("//a///b//", &mut buf), Some("/a/b"));
    let mut buf = [0u8; 256];
    assert_eq!(normalize("a/./b/../c", &mut buf), Some("a/c"));
    let mut buf = [0u8; 256];
    assert_eq!(normalize("/a/b/c", &mut buf), Some("/a/b/c"));
    let mut buf = [0u8; 256];
    assert_eq!(normalize("...", &mut buf), Some("..."));
    let mut buf = [0u8; 256];
    assert_eq!(normalize("a/.b/..c", &mut buf), Some("a/.b/..c"));
    let mut buf = [0u8; 256];
    assert_eq!(normalize("/größe/./día", &mut buf), Some("/größe/día"));
}

#[test]
fn normalize_cannot_go_above_the_top() {
    let mut buf = [0u8; 256];
    assert_eq!(normalize("/..", &mut buf), Some("/"));
    let mut buf = [0u8; 256];
    assert_eq!(normalize("/../../a", &mut buf), Some("/a"));
    let mut buf = [0u8; 256];
    assert_eq!(normalize("../a", &mut buf), Some("a"));
    let mut buf = [0u8; 256];
    assert_eq!(normalize("a/../..", &mut buf), Some("/"));
}

#[test]
fn normalize_of_nothing_is_the_root() {
    let mut buf = [0u8; 256];
    assert_eq!(normalize("", &mut buf), Some("/"));
    let mut buf = [0u8; 256];
    assert_eq!(normalize(".", &mut buf), Some("/"));
    let mut buf = [0u8; 256];
    assert_eq!(normalize("/", &mut buf), Some("/"));
    let mut buf = [0u8; 256];
    assert_eq!(normalize("./.", &mut buf), Some("/"));
}

#[test]
fn normalize_needs_room_for_all_of_the_result() {
    let mut buf = [9u8; 15];
    assert_eq!(normalize("/system/services", &mut buf), None);
    assert_eq!(buf, [9u8; 15]);
    let mut buf = [9u8; 16];
    assert_eq!(normalize("/system/services", &mut buf), Some("/system/services"));
    let mut buf = [9u8; 17];
    assert_eq!(normalize("/system/services", &mut buf), Some("/system/services"));
    assert_eq!(buf[16], 9);
    let mut buf = [0u8; 0];
    assert_eq!(normalize("", &mut buf), None);
    let mut buf = [0u8; 0];
    assert_eq!(normalize("/a", &mut buf), None);
}

#[test]
fn normalize_keeps_at_most_64_components() {
    let long: String = (0..70).map(|i| format!("c{}/", i)).collect();
    let expected: String =
        (0..64).map(|i| format!("c{}", i)).collect::<Vec<String>>().join("/");
    let mut buf = [0u8; 1024];
    assert_eq!(normalize(&long, &mut buf), Some(expected.as_str()));

    let with_pop = format!("{}../x", long);
    let expected: String = (0..63)
        .map(|i| format!("c{}", i))
        .chain(std::iter::once(String::from("x")))
        .collect::<Vec<String>>()
        .join("/");
    let mut buf = [0u8; 1024];
    assert_eq!(normalize(&with_pop, &mut buf), Some(expected.as_str()));
}
