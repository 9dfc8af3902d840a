use vidbatch::decide::{reports_outdated, should_probe, use_accelerator, warn_forced_accelerator};
use vidbatch::hosts::{is_recognized_host, is_recognized_url};
use vidbatch::listing::{any_url_lines, is_url_line, output_subdir, url_lines};
use vidbatch::text::{contains_text, has_prefix, same_text};

fn lines(ls: &[&str]) -> Vec<String> {
    ls.iter().map(|s| s.to_string()).collect()
}

#[test]
fn comment_only_list_has_no_urls() {
    let list = lines(&["# first", "", "   ", "\t", "#https://youtu.be/x"]);
    assert!(url_lines(&list).is_empty());
    assert!(!any_url_lines(&vec![list.clone(), lines(&[])]));
    let other = lines(&["# c", "https://example.com/v.mp4", ""]);
    assert_eq!(url_lines(&other), vec!["https://example.com/v.mp4"]);
    assert!(any_url_lines(&vec![list, other]));
}

#[test]
fn url_line_rules() {
    assert!(!is_url_line(""));
    assert!(!is_url_line(" \t\r"));
    assert!(!is_url_line("\u{a0}\u{3000}"));
    assert!(!is_url_line("#comment"));
    assert!(is_url_line(" #indented"));
    assert!(is_url_line("https://youtu.be/abc"));
}

#[test]
fn list_names_map_to_directories() {
    assert_eq!(output_subdir("default"), None);
    assert_eq!(output_subdir("music"), Some("music".to_string()));
    assert_eq!(output_subdir("Default"), Some("Default".to_string()));
}

#[test]
fn recognized_hosts() {
    assert!(is_recognized_url("https://www.youtube.com/watch?v=abc"));
    assert!(is_recognized_url("https://youtu.be/abc"));
    assert!(!is_recognized_url("https://vimeo.com/123"));
    assert!(!is_recognized_url("https://www.youtube.com.example.org/x"));
    assert!(!is_recognized_url("not a url"));
    assert!(is_recognized_host("youtu.be"));
    assert!(!is_recognized_host("youtube.org"));
}

#[test]
fn accelerator_and_probe_decisions() {
    assert!(use_accelerator(true, false, true));
    assert!(use_accelerator(false, true, false));
    assert!(!use_accelerator(false, true, true));
    assert!(!use_accelerator(false, false, false));
    assert!(warn_forced_accelerator(true, true));
    assert!(!warn_forced_accelerator(true, false));
    assert!(should_probe(true, false));
    assert!(!should_probe(true, true));
    assert!(!should_probe(false, false));
}

#[test]
fn update_check_output() {
    assert!(reports_outdated("Latest version: 2025.01.01\nCurrent version: 2024.01.01\n"));
    assert!(!reports_outdated(
        "Latest version: 2025.01.01\nCurrent version: 2025.01.01\nyt-dlp is up to date"
    ));
    assert!(!reports_outdated("Current version: 2024.01.01"));
    assert!(!reports_outdated(""));
}

#[test]
fn text_helpers() {
    assert!(has_prefix("vp9.0", "vp9"));
    assert!(!has_prefix("vp", "vp9"));
    assert!(same_text("mp4", "mp4"));
    assert!(!same_text("mp4", "mp3"));
    assert!(contains_text("abcabd", "abd"));
    assert!(contains_text("abc", ""));
    assert!(!contains_text("ab", "abc"));
}
