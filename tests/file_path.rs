use status_line::file_path::{smart_file_path, smart_path_from_parts};

fn parts(items: &[&str]) -> Vec<String> {
    items.iter().map(|s| s.to_string()).collect()
}

#[test]
fn smart_path_no_name() {
    assert_eq!(
        smart_file_path("", "/home/me", "/tmp", 120),
        Some("[No Name]".to_string())
    );
}

#[test]
fn smart_path_in_home_wide() {
    assert_eq!(
        smart_file_path("/home/me/src/lib.rs", "/home/me", "/tmp", 120),
        Some("~/src/lib.rs ".to_string())
    );
}

#[test]
fn smart_path_in_home_narrow() {
    assert_eq!(
        smart_file_path("/home/me/code/rust/lib.rs", "/home/me", "/tmp", 80),
        Some("~/c/r/lib.rs ".to_string())
    );
}

#[test]
fn smart_path_file_directly_in_home() {
    assert_eq!(
        smart_file_path("/home/me/notes.txt", "/home/me", "/tmp", 120),
        Some("~/notes.txt ".to_string())
    );
}

#[test]
fn smart_path_outside_home() {
    assert_eq!(
        smart_file_path("/etc/hosts", "/home/me", "/tmp", 120),
        Some("/etc/hosts ".to_string())
    );
    assert_eq!(
        smart_file_path("/etc/hosts", "/home/me", "/tmp", 40),
        Some("//e/hosts ".to_string())
    );
}

#[test]
fn smart_path_relative_name() {
    assert_eq!(
        smart_file_path("notes.txt", "/home/me", "/tmp", 120),
        Some("notes.txt ".to_string())
    );
}

#[test]
fn smart_path_terminal_in_home() {
    assert_eq!(
        smart_file_path("term://~//4242:/bin/bash", "/home/me", "/home/me", 120),
        Some("$HOME ".to_string())
    );
}

#[test]
fn smart_path_terminal_elsewhere() {
    assert_eq!(
        smart_file_path("term://~//4242:/bin/bash", "/home/me", "/home/me/code/rust", 120),
        Some("~/code/rust ".to_string())
    );
    assert_eq!(
        smart_file_path("term://~//4242:/bin/bash", "/home/me", "/home/me/code/rust", 60),
        Some("~/c/r ".to_string())
    );
}

#[test]
fn smart_path_without_file_name() {
    assert_eq!(smart_file_path("/", "/home/me", "/tmp", 120), None);
    assert_eq!(smart_file_path("a/..", "/home/me", "/tmp", 120), None);
}

#[test]
fn smart_path_from_given_parts() {
    let buf = parts(&["/", "home", "me", ".config", "init.lua"]);
    let home = parts(&["/", "home", "me"]);
    let cwd = parts(&["/"]);
    assert_eq!(
        smart_path_from_parts(&buf, &home, &cwd, 80),
        Some("~/.c/init.lua ".to_string())
    );
    assert_eq!(
        smart_path_from_parts(&buf, &home, &cwd, 81),
        Some("~/.config/init.lua ".to_string())
    );
}
