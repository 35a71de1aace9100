use zsh_prompts::color::Color;
use zsh_prompts::policy::resolve;
use zsh_prompts::segment::{render_line, PromptSegment};

#[test]
fn uncolored_segment_is_plain_text() {
    let s = PromptSegment::new("abc".to_string());
    assert_eq!(s.color, None);
    assert_eq!(s.format(), "abc");
}

#[test]
fn colored_segment_resets_foreground_only() {
    let s = PromptSegment::new_with_color("main".to_string(), "red");
    assert_eq!(s.color, Some(Color::Red));
    assert_eq!(s.format(), "\x1b[31mmain\x1b[39m");
    let t = PromptSegment::new_with_color("x".to_string(), "#010203");
    assert_eq!(t.format(), "\x1b[38;2;1;2;3mx\x1b[39m");
}

#[test]
fn unparsable_color_means_no_color() {
    let s = PromptSegment::new_with_color("x".to_string(), "not-a-color");
    assert_eq!(s.color, None);
    assert_eq!(s.format(), "x");
}

#[test]
fn line_joins_with_single_spaces() {
    let segs = vec![
        PromptSegment::new("a".to_string()),
        PromptSegment::new("".to_string()),
        PromptSegment::new_with_color("b".to_string(), "blue"),
    ];
    assert_eq!(render_line(&segs), "a  \x1b[34mb\x1b[39m");
    assert_eq!(render_line(&Vec::new()), "");
    assert_eq!(render_line(&vec![PromptSegment::new("only".to_string())]), "only");
}

#[test]
fn resolution_precedence() {
    let d = Color::Green;
    let a = Color::Red;
    let b = Color::Blue;
    assert_eq!(resolve(d, Some(a), Some(b)), a);
    assert_eq!(resolve(d, Some(a), None), a);
    assert_eq!(resolve(d, None, Some(b)), b);
    assert_eq!(resolve(d, None, None), d);
}
