use zsh_prompts::cmd::{duration_text, execution_segment, signed_decimal_string};
use zsh_prompts::color::Color;
use zsh_prompts::os::{os_icon, os_icon_segment, OsKind};
use zsh_prompts::pwd::{pwd_segments, shorten_path, unreadable_pwd_segments, HomePlace};
use zsh_prompts::time::clock_segment;

#[test]
fn test_get_execution_info_success_no_time() {
    let result = execution_segment(0, "", None);
    assert_eq!(result.content, "\u{f058}");
    assert_eq!(result.color, Some(Color::Green));
}

#[test]
fn test_get_execution_info_failure_with_time() {
    let result = execution_segment(127, &duration_text(1), None);
    assert!(result.content.contains("\u{f071}"));
    assert!(result.content.contains("127"));
    assert!(result.content.contains("1s"));
    assert_eq!(result.color, Some(Color::Red));
    assert_eq!(result.content, "\u{f071} 1s 127");
}

#[test]
fn test_get_execution_info_long_duration_minutes() {
    let result = execution_segment(0, &duration_text(150), None);
    assert!(result.content.contains("2m30s"));
}

#[test]
fn test_get_execution_info_invalid_env_fallback() {
    let result = execution_segment(0, "", None);
    assert_eq!(result.content, "\u{f058}");
    assert_eq!(result.color, Some(Color::Green));
}

#[test]
fn test_get_execution_info_with_custom_color() {
    let result = execution_segment(0, "", Some(Color::Blue));
    assert_eq!(result.content, "\u{f058}");
    assert_eq!(result.color, Some(Color::Blue));
}

#[test]
fn durations_leave_out_zero_units() {
    assert_eq!(duration_text(0), "0s");
    assert_eq!(duration_text(59), "59s");
    assert_eq!(duration_text(60), "1m0s");
    assert_eq!(duration_text(3600), "1h0s");
    assert_eq!(duration_text(90061), "1d1h1m1s");
    assert_eq!(duration_text(172800 + 5), "2d5s");
}

#[test]
fn negative_status_keeps_sign() {
    assert_eq!(signed_decimal_string(-1), "-1");
    assert_eq!(signed_decimal_string(i32::MIN), "-2147483648");
    assert_eq!(execution_segment(-9, "", None).content, "\u{f071} -9");
}

#[test]
fn os_icons() {
    assert_eq!(os_icon(OsKind::Arch), "\u{f08c7}");
    assert_eq!(os_icon(OsKind::CachyOS), "\u{f08c7}");
    assert_eq!(os_icon(OsKind::Ubuntu), "\u{f31b}");
    assert_eq!(os_icon(OsKind::Macos), "\u{f179}");
    assert_eq!(os_icon(OsKind::Unknown), "\u{edfe}");
    assert_eq!(os_icon(OsKind::Other), "\u{edfe}");
    let seg = os_icon_segment(OsKind::Linux, None);
    assert_eq!(seg.content, "\u{f17c}");
    assert_eq!(seg.color, Some(Color::White));
    assert_eq!(os_icon_segment(OsKind::Windows, Some(Color::Cyan)).color, Some(Color::Cyan));
}

#[test]
fn clock_has_icon_and_default_magenta() {
    let seg = clock_segment("12:34:56", None);
    assert_eq!(seg.content, "\u{f017} 12:34:56");
    assert_eq!(seg.color, Some(Color::Magenta));
    assert_eq!(clock_segment("00:00:00", Some(Color::Red)).color, Some(Color::Red));
}

#[test]
fn home_directory_is_a_tilde() {
    let segs = pwd_segments("/home/me", &HomePlace::AtHome, false, None);
    assert_eq!(segs[0].content, "\u{f015}");
    assert_eq!(segs[1].content, "~");
    assert_eq!(segs[0].color, Some(Color::Cyan));
    assert_eq!(segs[1].color, Some(Color::Cyan));
}

#[test]
fn below_home_starts_with_tilde() {
    let segs = pwd_segments(
        "/home/me/src/project",
        &HomePlace::Below("/home/me".to_string()),
        false,
        Some(Color::Blue),
    );
    assert_eq!(segs[0].content, "\u{f07c}");
    assert_eq!(segs[1].content, "~/src/project");
    assert_eq!(segs[1].color, Some(Color::Blue));
}

#[test]
fn read_only_directory_shows_lock() {
    let segs = pwd_segments("/usr/share", &HomePlace::Elsewhere, true, None);
    assert_eq!(segs[0].content, "\u{f023}");
    assert_eq!(segs[1].content, "/usr/share");
}

#[test]
fn long_paths_are_shortened() {
    let long_dir = "x".repeat(120);
    let p = format!("/a/{}/end", long_dir);
    assert_eq!(shorten_path(&p), "/.../end");
    let exactly = "y".repeat(100);
    assert_eq!(shorten_path(&exactly), exactly);
    let no_slash = "z".repeat(101);
    assert_eq!(shorten_path(&no_slash), format!("...{}", "z".repeat(97)));
    let big_last = format!("/a/{}", "w".repeat(98));
    assert_eq!(shorten_path(&big_last), format!("...{}", &big_last[big_last.len() - 97..]));
}

#[test]
fn unreadable_directory_segments() {
    let segs = unreadable_pwd_segments();
    assert_eq!(segs[0].content, "\u{f07c} ");
    assert_eq!(segs[1].content, "Error");
    assert_eq!(segs[1].color, Some(Color::Red));
}
