use fsm::error::{ErrorType, FsmError};
use fsm::filepath::FilepathManager;
use fsm::reader::{DirectoryEntry, TimeInterval};

fn leaf(key: &str) -> DirectoryEntry {
    DirectoryEntry::LeafDirectory(key.to_string())
}

fn branch(children: Vec<(&str, DirectoryEntry)>) -> DirectoryEntry {
    DirectoryEntry::ParentDirectory(
        children.into_iter().map(|(name, entry)| (name.to_string(), entry)).collect(),
    )
}

fn sample_tree() -> DirectoryEntry {
    branch(vec![
        ("docs", branch(vec![("text", leaf("txt")), ("sheets", leaf("xls"))])),
        ("pics", leaf("pics")),
        ("misc", branch(vec![("deep", branch(vec![("er", leaf("deep"))]))])),
    ])
}

#[test]
fn directories_come_breadth_first() {
    let dirs = FilepathManager::directories("/managed", &sample_tree());
    assert_eq!(
        dirs,
        vec![
            "/managed/categorized",
            "/managed/categorized/docs",
            "/managed/categorized/pics",
            "/managed/categorized/misc",
            "/managed/categorized/docs/text",
            "/managed/categorized/docs/sheets",
            "/managed/categorized/misc/deep",
            "/managed/categorized/misc/deep/er",
        ]
    );
}

#[test]
fn every_directory_comes_behind_its_parent() {
    let dirs = FilepathManager::directories("/m", &sample_tree());
    for (i, dir) in dirs.iter().enumerate().skip(1) {
        let parent = std::path::Path::new(dir).parent().unwrap().to_str().unwrap().to_string();
        let at = dirs.iter().position(|d| *d == parent).unwrap();
        assert!(at < i);
    }
}

#[test]
fn leaves_register_their_keys() {
    let index = FilepathManager::new("/managed", &sample_tree(), Ok(())).unwrap();
    assert_eq!(index.get("txt").unwrap(), "/managed/categorized/docs/text");
    assert_eq!(index.get("xls").unwrap(), "/managed/categorized/docs/sheets");
    assert_eq!(index.get("pics").unwrap(), "/managed/categorized/pics");
    assert_eq!(index.get("deep").unwrap(), "/managed/categorized/misc/deep/er");
    assert_eq!(index.get("docs"), None);
    assert_eq!(index.get(""), None);
    assert_eq!(index.map_ref().len(), 4);
}

#[test]
fn lone_leaf_is_the_root() {
    let dirs = FilepathManager::directories("/managed", &leaf("all"));
    assert_eq!(dirs, vec!["/managed/categorized"]);
    let index = FilepathManager::new("/managed", &leaf("all"), Ok(())).unwrap();
    assert_eq!(index.get("all").unwrap(), "/managed/categorized");
}

#[test]
fn empty_branch_registers_nothing() {
    let tree = branch(vec![]);
    let index = FilepathManager::new("/managed", &tree, Ok(())).unwrap();
    assert!(index.map_ref().is_empty());
    assert_eq!(FilepathManager::directories("/managed", &tree), vec!["/managed/categorized"]);
}

#[test]
fn later_leaf_takes_a_repeated_key() {
    let tree = branch(vec![("deep", branch(vec![("b", leaf("k"))])), ("a", leaf("k"))]);
    let index = FilepathManager::new("/m", &tree, Ok(())).unwrap();
    // breadth-first: /m/categorized/a is visited before /m/categorized/deep/b
    assert_eq!(index.get("k").unwrap(), "/m/categorized/deep/b");
}

#[test]
fn failed_creation_gives_no_index() {
    let built = FilepathManager::new(
        "/managed",
        &sample_tree(),
        Err("Permission denied (os error 13)".to_string()),
    );
    let error: FsmError = built.unwrap_err();
    assert_eq!(error.get_error_type(), ErrorType::FilesystemFailure);
    assert_eq!(error.get_error_message(), "Permission denied (os error 13)");
}

#[test]
fn building_twice_gives_the_same_index() {
    let first = FilepathManager::new("/managed", &sample_tree(), Ok(())).unwrap();
    let second = FilepathManager::new("/managed", &sample_tree(), Ok(())).unwrap();
    assert_eq!(first.map_ref(), second.map_ref());
    assert_eq!(
        FilepathManager::directories("/managed", &sample_tree()),
        FilepathManager::directories("/managed", &sample_tree())
    );
}

#[test]
fn trailing_separator_of_the_base_is_absorbed() {
    let index = FilepathManager::new("/managed/", &leaf("all"), Ok(())).unwrap();
    assert_eq!(index.get("all").unwrap(), "/managed/categorized");
}

#[test]
fn time_interval_in_seconds() {
    assert_eq!(TimeInterval::new(1, 0, 0).total_seconds(), Some(1));
    assert_eq!(TimeInterval::new(5, 2, 1).total_seconds(), Some(5 + 120 + 3600));
    assert_eq!(TimeInterval::default().total_seconds(), Some(60));
    assert_eq!(TimeInterval::from_parts(None, Some(3), None).total_seconds(), Some(180));
    assert_eq!(TimeInterval::from_parts(None, None, None).total_seconds(), Some(0));
}

#[test]
fn time_interval_keeps_its_parts() {
    assert_eq!(TimeInterval::new(5, 2, 1).parts(), (Some(5), Some(2), Some(1)));
    assert_eq!(TimeInterval::from_parts(None, Some(3), None).parts(), (None, Some(3), None));
    assert_eq!(TimeInterval::default().parts(), (Some(60), Some(0), Some(0)));
    assert_eq!(TimeInterval::new(125, 0, 0).parts(), (Some(125), Some(0), Some(0)));
}

#[test]
fn time_interval_that_does_not_fit() {
    assert_eq!(TimeInterval::new(u64::MAX, 1, 0).total_seconds(), None);
    assert_eq!(TimeInterval::new(0, 0, u64::MAX).total_seconds(), None);
    assert_eq!(TimeInterval::new(u64::MAX, 0, 0).total_seconds(), Some(u64::MAX));
    assert_eq!(TimeInterval::new(u64::MAX - 60, 1, 0).total_seconds(), Some(u64::MAX));
}

#[test]
fn errors_describe_themselves() {
    let error = FsmError::new(ErrorType::MoveFailed, "disk full".to_string());
    assert_eq!(error.get_error_message(), "disk full");
    assert_eq!(error.get_error_type(), ErrorType::MoveFailed);
    assert_eq!(error.describe(), "MoveFailed - disk full");
    let copy = error.duplicate();
    assert_eq!(copy.describe(), "MoveFailed - disk full");
    let names = [
        (ErrorType::ConfigError, "ConfigError"),
        (ErrorType::FilesystemFailure, "FilesystemFailure"),
        (ErrorType::WatcherInitError, "WatcherInitError"),
        (ErrorType::MoveFailed, "MoveFailed"),
        (ErrorType::NoMatchingRule, "NoMatchingRule"),
        (ErrorType::UnmappedDirectoryKey, "UnmappedDirectoryKey"),
        (ErrorType::ApplicationError, "ApplicationError"),
    ];
    for (kind, name) in names {
        assert_eq!(kind.name(), name);
    }
}
