use fsm::data::{report_relocation, LogType, Message};
use fsm::error::ErrorType;
use fsm::writer::{alternative_of, numbered_name_of, DataMessage, FileWriter, MoveStep};
use std::collections::HashSet;

fn request(from: &str, to: &str) -> DataMessage {
    DataMessage { from_path: from.to_string(), to_path: to.to_string() }
}

/// Runs a relocation against a set of occupied paths, as a caller would
/// against the disk, and occupies the path that it lands on.
fn relocate(writer: &FileWriter, message: &DataMessage, taken: &mut HashSet<String>) -> String {
    let mut step = writer.begin(message);
    loop {
        match step {
            MoveStep::Probe { path, attempt } => {
                let occupied = taken.contains(&path);
                step = writer.after_probe(message, attempt, occupied).unwrap();
            }
            MoveStep::Rename { from, to } => {
                assert_eq!(from, message.from_path);
                taken.insert(to.clone());
                return writer.finish(to, Ok(())).unwrap();
            }
        }
    }
}

#[test]
fn numbered_names() {
    assert_eq!(numbered_name_of("a.txt", 0), "a_0.txt");
    assert_eq!(numbered_name_of("a.txt", 1), "a_1.txt");
    assert_eq!(numbered_name_of("a.txt", 12), "a_12.txt");
    assert_eq!(numbered_name_of("a.tar.gz", 3), "a.tar_3.gz");
    assert_eq!(numbered_name_of("README", 0), "README_0");
    assert_eq!(numbered_name_of(".bashrc", 2), ".bashrc_2");
    assert_eq!(numbered_name_of("odd.", 0), "odd_0");
    assert_eq!(numbered_name_of("a.txt", u64::MAX), "a_18446744073709551615.txt");
}

#[test]
fn alternatives_stay_in_the_directory() {
    assert_eq!(alternative_of("/m/docs/a.txt", 0), Some("/m/docs/a_0.txt".to_string()));
    assert_eq!(alternative_of("/m/docs/a.txt", 7), Some("/m/docs/a_7.txt".to_string()));
    assert_eq!(alternative_of("a.txt", 1), Some("a_1.txt".to_string()));
    assert_eq!(alternative_of("/m/docs/a.txt/", 0), Some("/m/docs/a_0.txt".to_string()));
    assert_eq!(alternative_of("/m/docs/..", 0), None);
    assert_eq!(alternative_of("/", 0), None);
    assert_eq!(alternative_of("", 0), None);
}

#[test]
fn writer_remembers_its_policy() {
    assert!(FileWriter::new(true).do_overwrite_on_move());
    assert!(!FileWriter::new(false).do_overwrite_on_move());
}

#[test]
fn overwriting_mover_renames_at_once() {
    let writer = FileWriter::new(true);
    match writer.begin(&request("/w/a.txt", "/m/docs/a.txt")) {
        MoveStep::Rename { from, to } => {
            assert_eq!(from, "/w/a.txt");
            assert_eq!(to, "/m/docs/a.txt");
        }
        other => panic!("{:?}", other),
    }
}

#[test]
fn careful_mover_probes_the_destination_first() {
    let writer = FileWriter::new(false);
    match writer.begin(&request("/w/a.txt", "/m/docs/a.txt")) {
        MoveStep::Probe { path, attempt } => {
            assert_eq!(path, "/m/docs/a.txt");
            assert_eq!(attempt, None);
        }
        other => panic!("{:?}", other),
    }
}

#[test]
fn free_destination_is_taken() {
    let writer = FileWriter::new(false);
    let message = request("/w/a.txt", "/m/docs/a.txt");
    match writer.after_probe(&message, None, false).unwrap() {
        MoveStep::Rename { from, to } => {
            assert_eq!(from, "/w/a.txt");
            assert_eq!(to, "/m/docs/a.txt");
        }
        other => panic!("{:?}", other),
    }
}

#[test]
fn occupied_destination_leads_to_the_alternatives_in_order() {
    let writer = FileWriter::new(false);
    let message = request("/w/a.txt", "/m/docs/a.txt");
    match writer.after_probe(&message, None, true).unwrap() {
        MoveStep::Probe { path, attempt } => {
            assert_eq!(path, "/m/docs/a_0.txt");
            assert_eq!(attempt, Some(0));
        }
        other => panic!("{:?}", other),
    }
    match writer.after_probe(&message, Some(0), true).unwrap() {
        MoveStep::Probe { path, attempt } => {
            assert_eq!(path, "/m/docs/a_1.txt");
            assert_eq!(attempt, Some(1));
        }
        other => panic!("{:?}", other),
    }
    match writer.after_probe(&message, Some(1), false).unwrap() {
        MoveStep::Rename { from, to } => {
            assert_eq!(from, "/w/a.txt");
            assert_eq!(to, "/m/docs/a_1.txt");
        }
        other => panic!("{:?}", other),
    }
}

#[test]
fn occupied_destination_without_file_name_fails() {
    let writer = FileWriter::new(false);
    let message = request("/w/a.txt", "/m/docs/..");
    let error = writer.after_probe(&message, None, true).unwrap_err();
    assert_eq!(error.get_error_type(), ErrorType::MoveFailed);
    assert_eq!(error.get_error_message(), "Could not obtain file name.");
}

#[test]
fn used_up_numbers_fail() {
    let writer = FileWriter::new(false);
    let message = request("/w/a.txt", "/m/docs/a.txt");
    let error = writer.after_probe(&message, Some(u64::MAX), true).unwrap_err();
    assert_eq!(error.get_error_type(), ErrorType::MoveFailed);
    match writer.after_probe(&message, Some(u64::MAX - 1), true).unwrap() {
        MoveStep::Probe { path, attempt } => {
            assert_eq!(path, "/m/docs/a_18446744073709551615.txt");
            assert_eq!(attempt, Some(u64::MAX));
        }
        other => panic!("{:?}", other),
    }
}

#[test]
fn failed_rename_is_a_failed_move() {
    let writer = FileWriter::new(false);
    let error = writer
        .finish("/m/docs/a.txt".to_string(), Err("No such file or directory".to_string()))
        .unwrap_err();
    assert_eq!(error.get_error_type(), ErrorType::MoveFailed);
    assert_eq!(error.get_error_message(), "No such file or directory");
    assert_eq!(writer.finish("/m/docs/a.txt".to_string(), Ok(())).unwrap(), "/m/docs/a.txt");
}

#[test]
fn colliding_files_get_distinct_names() {
    let writer = FileWriter::new(false);
    let mut taken: HashSet<String> = HashSet::new();
    taken.insert("/m/docs/other.txt".to_string());
    let before = taken.clone();
    let mut landed = Vec::new();
    for i in 0..25 {
        let message = request(&format!("/w{}/a.txt", i), "/m/docs/a.txt");
        landed.push(relocate(&writer, &message, &mut taken));
    }
    assert_eq!(landed[0], "/m/docs/a.txt");
    assert_eq!(landed[1], "/m/docs/a_0.txt");
    assert_eq!(landed[2], "/m/docs/a_1.txt");
    assert_eq!(landed[24], "/m/docs/a_23.txt");
    let distinct: HashSet<&String> = landed.iter().collect();
    assert_eq!(distinct.len(), 25);
    for path in &landed {
        assert!(!before.contains(path));
    }
}

#[test]
fn gaps_in_the_numbers_are_filled_first() {
    let writer = FileWriter::new(false);
    let mut taken: HashSet<String> = ["/m/a.txt", "/m/a_0.txt", "/m/a_2.txt"]
        .iter()
        .map(|s| s.to_string())
        .collect();
    let message = request("/w/a.txt", "/m/a.txt");
    assert_eq!(relocate(&writer, &message, &mut taken), "/m/a_1.txt");
    assert_eq!(relocate(&writer, &message, &mut taken), "/m/a_3.txt");
}

#[test]
fn overwriting_mover_lands_on_the_destination_even_if_taken() {
    let writer = FileWriter::new(true);
    let mut taken: HashSet<String> = HashSet::new();
    taken.insert("/m/a.txt".to_string());
    let message = request("/w/a.txt", "/m/a.txt");
    assert_eq!(relocate(&writer, &message, &mut taken), "/m/a.txt");
}

#[test]
fn request_keeps_the_name_of_the_file() {
    let request = DataMessage::into_directory("/watch/a.txt", "/m/docs").unwrap();
    assert_eq!(request.from_path, "/watch/a.txt");
    assert_eq!(request.to_path, "/m/docs/a.txt");
    let request = DataMessage::into_directory("a.txt", "/m/docs/").unwrap();
    assert_eq!(request.to_path, "/m/docs/a.txt");
    let request = DataMessage::into_directory("/watch/sub/", "/m").unwrap();
    assert_eq!(request.to_path, "/m/sub");
}

#[test]
fn request_needs_a_file_name() {
    for source in ["/", "", "/watch/..", "."] {
        let error = DataMessage::into_directory(source, "/m/docs").unwrap_err();
        assert_eq!(error.get_error_type(), ErrorType::MoveFailed);
        assert_eq!(error.get_error_message(), "Could not obtain file name.");
    }
}

#[test]
fn end_of_a_relocation_is_reported() {
    let message = request("/w/a.txt", "/m/docs/a.txt");
    match report_relocation(&message, &Ok("/m/docs/a_0.txt".to_string())) {
        Message::Log { message, message_type } => {
            assert_eq!(message, "File \"/w/a.txt\" has been moved to \"/m/docs/a_0.txt\"");
            assert_eq!(message_type, LogType::Info);
        }
        other => panic!("{:?}", other),
    }
    let failed = FileWriter::new(false).finish("/m/docs/a.txt".to_string(), Err("disk full".to_string()));
    match report_relocation(&message, &failed) {
        Message::Log { message, message_type } => {
            assert_eq!(message, "MoveFailed - disk full");
            assert_eq!(message_type, LogType::Error);
        }
        other => panic!("{:?}", other),
    }
}
