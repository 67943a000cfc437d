use fsm::error::ErrorType;
use fsm::filepath::FilepathManager;
use fsm::filter::{holds_text, FileFilter, FilterManager};
use fsm::reader::DirectoryEntry;

fn rule(pattern: Option<&str>, types: &[&str], key: &str) -> FileFilter {
    let mut rule = FileFilter::default();
    if let Some(pattern) = pattern {
        rule.set_filename_pattern(pattern.to_string());
    }
    for t in types {
        rule.add_allowed_filetype(t.to_string());
    }
    rule.set_directory_key(key.to_string());
    rule
}

fn index() -> FilepathManager {
    let tree = DirectoryEntry::ParentDirectory(vec![
        ("docs".to_string(), DirectoryEntry::LeafDirectory("docs".to_string())),
        ("pics".to_string(), DirectoryEntry::LeafDirectory("pics".to_string())),
    ]);
    FilepathManager::new("/managed", &tree, Ok(())).unwrap()
}

#[test]
fn default_rule_accepts_everything() {
    let rule = FileFilter::default();
    assert!(rule.is_match("/watch/a.txt"));
    assert!(rule.is_match("/watch/noext"));
    assert!(rule.is_match(""));
    assert_eq!(rule.get_directory_key(), "");
    assert_eq!(rule.get_age_range(), (None, None));
}

#[test]
fn extension_must_be_allowed() {
    let rule = rule(None, &["txt", "md"], "docs");
    assert!(rule.is_match("/watch/a.txt"));
    assert!(rule.is_match("/watch/a.md"));
    assert!(!rule.is_match("/watch/a.png"));
    assert!(!rule.is_match("/watch/a.TXT"));
    assert!(!rule.is_match("/watch/a.txt.bak"));
}

#[test]
fn file_without_extension_is_always_allowed() {
    let rule = rule(None, &["txt"], "docs");
    assert!(rule.is_match("/watch/README"));
    assert!(rule.is_match("/watch/.hidden"));
    assert!(rule.is_match("/watch/trailing."));
}

#[test]
fn cleared_types_allow_everything() {
    let mut rule = rule(None, &["txt"], "docs");
    assert!(!rule.is_match("a.png"));
    rule.clear_allowed_filetypes();
    assert!(rule.is_match("a.png"));
    rule.add_allowed_filetype("png".to_string());
    rule.add_allowed_filetype("png".to_string());
    assert!(rule.is_match("a.png"));
    assert!(!rule.is_match("a.txt"));
}

#[test]
fn pattern_is_searched_in_the_file_name() {
    let rule = rule(Some(r"^report_\d+"), &[], "docs");
    assert!(rule.is_match("/watch/report_12.txt"));
    assert!(!rule.is_match("/watch/notes.txt"));
    assert!(!rule.is_match("/report_12/notes.txt"));
    let anywhere = self::rule(Some("epo"), &[], "docs");
    assert!(anywhere.is_match("/watch/report_12.txt"));
    assert!(!anywhere.is_match("/repos/notes.txt"));
}

#[test]
fn pattern_that_does_not_compile_never_matches() {
    let rule = rule(Some("foo(bar"), &[], "docs");
    assert!(!rule.is_match("/watch/foo(bar"));
    assert!(!rule.is_match("/watch/a.txt"));
    assert!(!rule.is_match(""));
}

#[test]
fn pattern_and_extension_must_both_fit() {
    let rule = rule(Some("^a"), &["txt"], "docs");
    assert!(rule.is_match("/watch/a.txt"));
    assert!(!rule.is_match("/watch/b.txt"));
    assert!(!rule.is_match("/watch/a.png"));
}

#[test]
fn path_without_file_name_is_searched_as_empty() {
    let empty = rule(Some("^$"), &[], "docs");
    assert!(empty.is_match("/"));
    assert!(!empty.is_match("/a"));
}

#[test]
fn decide_takes_the_verdict_as_given() {
    let with_pattern = rule(Some("x"), &["txt"], "docs");
    assert!(with_pattern.decide(Some(true), "txt"));
    assert!(with_pattern.decide(Some(true), ""));
    assert!(!with_pattern.decide(Some(true), "png"));
    assert!(!with_pattern.decide(Some(false), "txt"));
    assert!(!with_pattern.decide(None, "txt"));
    let without = rule(None, &[], "docs");
    assert!(without.decide(None, "png"));
    assert!(without.decide(Some(false), "png"));
}

#[test]
fn age_range_is_kept() {
    let mut rule = FileFilter::default();
    rule.set_age_range(Some(5), Some(60));
    assert_eq!(rule.get_age_range(), (Some(5), Some(60)));
    assert!(rule.is_match("anything.bin"));
}

#[test]
fn holds_text_finds_members() {
    let list = vec!["a".to_string(), "bc".to_string()];
    assert!(holds_text(&list, "a"));
    assert!(holds_text(&list, "bc"));
    assert!(!holds_text(&list, "b"));
    assert!(!holds_text(&Vec::new(), ""));
}

#[test]
fn first_match_wins() {
    let manager = FilterManager::new(vec![
        rule(None, &["png"], "pics"),
        rule(None, &["txt"], "docs"),
        rule(None, &[], "rest"),
        rule(None, &["txt"], "late"),
    ]);
    assert_eq!(manager.matching_filter("a.txt").unwrap().get_directory_key(), "docs");
    assert_eq!(manager.matching_filter("a.png").unwrap().get_directory_key(), "pics");
    assert_eq!(manager.matching_filter("a.bin").unwrap().get_directory_key(), "rest");
    assert_eq!(manager.matching_filter("noext").unwrap().get_directory_key(), "pics");
}

#[test]
fn no_rule_no_match() {
    let empty = FilterManager::new(Vec::new());
    assert!(empty.matching_filter("a.txt").is_none());
    let manager = FilterManager::new(vec![rule(None, &["txt"], "docs")]);
    assert!(manager.matching_filter("a.png").is_none());
}

#[test]
fn placing_a_file() {
    let manager = FilterManager::new(vec![rule(None, &["txt"], "docs")]);
    let request = manager
        .place_file_in_mapped_location("/watch/a.txt", true, &index())
        .unwrap();
    assert_eq!(request.from_path, "/watch/a.txt");
    assert_eq!(request.to_path, "/managed/categorized/docs/a.txt");
}

#[test]
fn placing_a_missing_file_fails() {
    let manager = FilterManager::new(vec![rule(None, &["txt"], "docs")]);
    let error = manager
        .place_file_in_mapped_location("/watch/a.txt", false, &index())
        .unwrap_err();
    assert_eq!(error.get_error_type(), ErrorType::FilesystemFailure);
    assert_eq!(error.get_error_message(), "The path /watch/a.txt does not exist.");
}

#[test]
fn placing_without_matching_rule_fails() {
    let manager = FilterManager::new(vec![rule(None, &["txt"], "docs")]);
    let error = manager
        .place_file_in_mapped_location("/watch/a.png", true, &index())
        .unwrap_err();
    assert_eq!(error.get_error_type(), ErrorType::NoMatchingRule);
    assert_eq!(error.get_error_message(), "The file /watch/a.png does not match any filters.");
}

#[test]
fn placing_with_unmapped_key_fails() {
    let manager = FilterManager::new(vec![rule(None, &["txt"], "nowhere")]);
    let error = manager
        .place_file_in_mapped_location("/watch/a.txt", true, &index())
        .unwrap_err();
    assert_eq!(error.get_error_type(), ErrorType::UnmappedDirectoryKey);
    assert_eq!(
        error.get_error_message(),
        "The file /watch/a.txt does not map to any managed directories."
    );
}

#[test]
fn placing_a_path_without_file_name_fails() {
    let manager = FilterManager::new(vec![rule(None, &[], "docs")]);
    let error = manager
        .place_file_in_mapped_location("/watch/..", true, &index())
        .unwrap_err();
    assert_eq!(error.get_error_type(), ErrorType::MoveFailed);
    assert_eq!(error.get_error_message(), "Could not obtain file name.");
}
