use bloom::{attach_console, console_requested, is_info_flag, Cli};
use std::path::PathBuf;

fn args(list: &[&str]) -> Vec<String> {
    list.iter().map(|s| s.to_string()).collect()
}

#[test]
fn the_four_info_flags_are_recognised() {
    for flag in ["-h", "--help", "-V", "--version"] {
        assert!(is_info_flag(flag), "{}", flag);
    }
}

#[test]
fn near_misses_are_not_info_flags() {
    for arg in ["", "-", "--", "-v", "-H", "--verson", "--helps", "--hel", "help", "photo.png", "--version=1"] {
        assert!(!is_info_flag(arg), "{}", arg);
    }
}

#[test]
fn help_after_the_program_name_borrows_the_console() {
    assert!(console_requested(&args(&["bloom", "--help"])));
    assert!(console_requested(&args(&["bloom", "photo.png", "-V"])));
    assert!(console_requested(&args(&["bloom", "-h"])));
    assert!(console_requested(&args(&["bloom", "--version"])));
}

#[test]
fn a_plain_path_does_not_borrow_the_console() {
    assert!(!console_requested(&args(&["bloom", "photo.png"])));
    assert!(!console_requested(&args(&["bloom"])));
    assert!(!console_requested(&args(&[])));
    assert!(!console_requested(&args(&["bloom", "--verson"])));
}

#[test]
fn the_program_name_itself_is_not_looked_at() {
    assert!(!console_requested(&args(&["--help"])));
    assert!(!console_requested(&args(&["-V", "photo.png"])));
}

#[test]
fn a_flag_after_the_separator_still_borrows_the_console() {
    assert!(console_requested(&args(&["bloom", "--", "--version"])));
}

#[test]
fn attaching_the_console_returns() {
    attach_console();
}

#[test]
fn the_command_line_carries_the_media_path() {
    let cli = Cli { media: Some(PathBuf::from("photo.png")) };
    assert_eq!(cli.media, Some(PathBuf::from("photo.png")));
    let none = Cli { media: None };
    assert_eq!(none.media, None);
}
