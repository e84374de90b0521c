use fc_man::image_builder::ImageBuilder;
use fc_man::paths::{has_root, join, rebase_under, strip_root, SEPARATOR};
use std::path::PathBuf;

fn pushed(base: &str, name: &str) -> String {
    let mut path = PathBuf::from(base);
    path.push(name);
    path.to_str().unwrap().to_string()
}

#[test]
fn join_puts_one_separator_between() {
    assert_eq!(join("/var/lib/fc-man", "image-builder"), "/var/lib/fc-man/image-builder");
    assert_eq!(join("a", "b"), "a/b");
    assert_eq!(join("a/", "b"), "a/b");
    assert_eq!(join("/", "b"), "/b");
    assert_eq!(join("a//", "b/c"), "a//b/c");
}

#[test]
fn join_with_empty_sides() {
    assert_eq!(join("", "b"), "b");
    assert_eq!(join("a", ""), "a/");
    assert_eq!(join("a/", ""), "a/");
    assert_eq!(join("", ""), "");
}

#[test]
fn join_of_absolute_name_replaces_base() {
    assert_eq!(join("/mnt", "/etc/resolv.conf"), "/etc/resolv.conf");
    assert_eq!(join("", "/x"), "/x");
    assert_eq!(join("a/b", "/"), "/");
}

#[test]
fn join_agrees_with_the_host() {
    let bases = ["", "/", "a", "a/", "/var/lib/fc-man", "rel/dir//", "répertoire"];
    let names = ["", "b", "b/c", "/abs", "/", "mount", "rootfs.ext4", "ü.txt", ".", ".."];
    for base in bases {
        for name in names {
            assert_eq!(join(base, name), pushed(base, name));
        }
    }
}

#[test]
fn strip_root_drops_every_leading_separator() {
    assert_eq!(strip_root("/etc/resolv.conf"), "etc/resolv.conf");
    assert_eq!(strip_root("///etc//resolv.conf"), "etc//resolv.conf");
    assert_eq!(strip_root("etc/resolv.conf"), "etc/resolv.conf");
    assert_eq!(strip_root("/"), "");
    assert_eq!(strip_root("///"), "");
    assert_eq!(strip_root(""), "");
    assert_eq!(strip_root("/é/x"), "é/x");
}

#[test]
fn has_root_looks_at_the_first_character() {
    assert_eq!(SEPARATOR, '/');
    assert!(has_root("/"));
    assert!(has_root("/etc"));
    assert!(!has_root(""));
    assert!(!has_root("etc/"));
}

#[test]
fn rebase_appends_absolute_paths() {
    assert_eq!(rebase_under("/work/mount", "/etc/resolv.conf"), "/work/mount/etc/resolv.conf");
    assert_eq!(rebase_under("/work/mount", "etc/resolv.conf"), "/work/mount/etc/resolv.conf");
    assert_eq!(rebase_under("/work/mount/", "//etc/hosts"), "/work/mount/etc/hosts");
    assert_eq!(rebase_under("/work/mount", "/"), "/work/mount/");
    assert_eq!(rebase_under("", "/etc"), "etc");
}

#[test]
fn rebased_path_stays_under_its_base() {
    let bases = ["", "/", "/mnt", "/mnt/", "rel"];
    let paths = ["", "/", "/a", "//a/b", "a", "a/", "/../x"];
    for base in bases {
        for path in paths {
            assert!(rebase_under(base, path).starts_with(base));
            assert!(!strip_root(path).starts_with('/'));
            assert!(path.ends_with(strip_root(path).as_str()));
        }
    }
}

#[test]
fn default_builder_works_under_var_lib() {
    let builder = ImageBuilder::default();
    assert_eq!(builder.get_mount_dir(), "/var/lib/fc-man/image-builder/mount");
    assert_eq!(builder.get_working_dir("abc"), "/var/lib/fc-man/image-builder/abc");
}

#[test]
fn builder_derives_both_directories_from_its_root() {
    let builder = ImageBuilder::new("/srv/images");
    assert_eq!(builder.get_working_dir("0b5c"), "/srv/images/0b5c");
    assert_eq!(builder.get_mount_dir(), "/srv/images/mount");
    let other = ImageBuilder::new("/srv/images/");
    assert_eq!(other.get_working_dir("0b5c"), "/srv/images/0b5c");
    assert_eq!(other.get_mount_dir(), "/srv/images/mount");
}
