use fsm::data::{
    follow_ups, notify_receivers, DashboardMessageManager, DataReceiver, DataSource, LogType, Logger,
    Message, MessageManager, PathWriter, Reaction, Receiver, ReceiverType, SourceType,
};
use fsm::error::{ErrorType, FsmError};
use fsm::filepath::FilepathManager;
use fsm::filter::{FileFilter, FilterManager};
use fsm::reader::DirectoryEntry;
use fsm::sweep::DirectorySweeper;

fn router(overwrite: bool) -> PathWriter {
    let tree = DirectoryEntry::ParentDirectory(vec![(
        "docs".to_string(),
        DirectoryEntry::LeafDirectory("docs".to_string()),
    )]);
    let index = FilepathManager::new("/managed", &tree, Ok(())).unwrap();
    let mut rule = FileFilter::default();
    rule.add_allowed_filetype("txt".to_string());
    rule.set_directory_key("docs".to_string());
    PathWriter::new(overwrite, index, FilterManager::new(vec![rule]))
}

fn discovery(path: &str) -> Message {
    Message::FileMove { file_to_move: path.to_string() }
}

fn log(text: &str, level: LogType) -> Message {
    Message::Log { message: text.to_string(), message_type: level }
}

#[test]
fn logger_writes_log_messages_at_their_severity() {
    let logger = Logger::new();
    for level in [LogType::Info, LogType::Warning, LogType::Error] {
        match logger.process_message(&log("hello", level)) {
            Reaction::Write { text, level: at } => {
                assert_eq!(text, "hello");
                assert_eq!(at, level);
            }
            other => panic!("{:?}", other),
        }
    }
    assert_eq!(logger.receiver_type(), ReceiverType::Logger);
}

#[test]
fn logger_notes_discoveries() {
    match Logger::new().process_message(&discovery("/watch/a.txt")) {
        Reaction::Write { text, level } => {
            assert_eq!(text, "Attempting to move file \"/watch/a.txt\" to mapped location.");
            assert_eq!(level, LogType::Info);
        }
        other => panic!("{:?}", other),
    }
}

#[test]
fn dashboard_forwards_everything() {
    let dashboard = DashboardMessageManager::new();
    match dashboard.process_message(&log("hello", LogType::Warning)) {
        Reaction::Forward { text } => assert_eq!(text, "hello"),
        other => panic!("{:?}", other),
    }
    match dashboard.process_message(&discovery("/watch/a.txt")) {
        Reaction::Forward { text } => {
            assert_eq!(text, "Attempting to move file \"/watch/a.txt\" to mapped location.")
        }
        other => panic!("{:?}", other),
    }
    assert_eq!(dashboard.receiver_type(), ReceiverType::DashboardMessages);
}

#[test]
fn router_places_discovered_files() {
    let router = router(true);
    match router.process_message(&discovery("/watch/a.txt")) {
        Reaction::Move { request, overwrite } => {
            assert_eq!(request.from_path, "/watch/a.txt");
            assert_eq!(request.to_path, "/managed/categorized/docs/a.txt");
            assert!(overwrite);
        }
        other => panic!("{:?}", other),
    }
    assert_eq!(router.receiver_type(), ReceiverType::FileWriter);
    assert_eq!(router.filepath_manager().get("docs").unwrap(), "/managed/categorized/docs");
    assert!(router.filter_manager().matching_filter("x.txt").is_some());
}

#[test]
fn router_fails_on_files_without_rule_and_ignores_logs() {
    let router = router(false);
    match router.process_message(&discovery("/watch/a.png")) {
        Reaction::Failed { error } => assert_eq!(error.get_error_type(), ErrorType::NoMatchingRule),
        other => panic!("{:?}", other),
    }
    assert!(matches!(router.process_message(&log("x", LogType::Error)), Reaction::Ignored));
}

#[test]
fn new_bus_is_empty() {
    let bus = MessageManager::new();
    assert!(bus.get_receivers().is_empty());
    assert!(bus.get_sources().is_empty());
    assert!(bus.publish(&discovery("/watch/a.txt")).is_empty());
}

#[test]
fn publish_reaches_every_consumer_once_in_order() {
    let mut bus = MessageManager::new();
    bus.add_receiver(Receiver::Dashboard(DashboardMessageManager::new()));
    bus.add_receiver(Receiver::PathWriter(router(false)));
    bus.add_receiver(Receiver::Logger(Logger::new()));
    bus.add_receiver(Receiver::Logger(Logger::new()));
    let kinds: Vec<ReceiverType> =
        bus.get_receivers().iter().map(|r| r.receiver_type()).collect();
    assert_eq!(
        kinds,
        vec![
            ReceiverType::DashboardMessages,
            ReceiverType::FileWriter,
            ReceiverType::Logger,
            ReceiverType::Logger
        ]
    );
    let reactions = bus.publish(&discovery("/watch/a.txt"));
    assert_eq!(reactions.len(), 4);
    assert!(matches!(reactions[0], Reaction::Forward { .. }));
    assert!(matches!(reactions[1], Reaction::Move { .. }));
    assert!(matches!(reactions[2], Reaction::Write { .. }));
    assert!(matches!(reactions[3], Reaction::Write { .. }));
}

#[test]
fn failing_consumer_does_not_stop_the_delivery() {
    let mut bus = MessageManager::new();
    bus.add_receiver(Receiver::PathWriter(router(false)));
    bus.add_receiver(Receiver::Logger(Logger::new()));
    bus.add_receiver(Receiver::Dashboard(DashboardMessageManager::new()));
    let reactions = bus.publish(&discovery("/watch/a.png"));
    assert_eq!(reactions.len(), 3);
    assert!(matches!(reactions[0], Reaction::Failed { .. }));
    assert!(matches!(reactions[1], Reaction::Write { .. }));
    assert!(matches!(reactions[2], Reaction::Forward { .. }));
}

#[test]
fn failed_reaction_gives_an_error_for_the_log() {
    let failed = Reaction::Failed {
        error: FsmError::new(ErrorType::NoMatchingRule, "nothing fits".to_string()),
    };
    match failed.notice() {
        Some(Message::Log { message, message_type }) => {
            assert_eq!(message, "nothing fits");
            assert_eq!(message_type, LogType::Error);
        }
        other => panic!("{:?}", other),
    }
    assert!(Reaction::Ignored.notice().is_none());
    assert!(Reaction::Forward { text: "x".to_string() }.notice().is_none());
    assert!(Reaction::Write { text: "x".to_string(), level: LogType::Error }.notice().is_none());
}

#[test]
fn free_function_delivers_to_any_list_of_consumers() {
    let loggers = vec![Logger::new(), Logger::new(), Logger::new()];
    let reactions = notify_receivers(&log("x", LogType::Info), &loggers);
    assert_eq!(reactions.len(), 3);
    let none: Vec<Logger> = Vec::new();
    assert!(notify_receivers(&log("x", LogType::Info), &none).is_empty());
}

#[test]
fn sources_are_registered_in_order_and_get_consumers() {
    let mut bus = MessageManager::new();
    bus.add_receiver(Receiver::Logger(Logger::new()));
    let mut sweeper = DirectorySweeper::new(1);
    assert!(!sweeper.get_receivers());
    bus.add_source(&mut sweeper);
    assert!(sweeper.get_receivers());
    assert_eq!(sweeper.source_type(), SourceType::Sweeper);
    assert_eq!(bus.get_sources(), &vec![SourceType::Sweeper]);
    assert_eq!(bus.get_receivers().len(), 1);
}

#[test]
fn source_without_consumers_announces_nothing() {
    let loggers = vec![Logger::new(), Logger::new()];
    let mut sweeper = DirectorySweeper::new(1);
    assert!(sweeper.notify_receivers(&log("x", LogType::Info), &loggers).is_empty());
    sweeper.set_receivers();
    assert_eq!(sweeper.notify_receivers(&log("x", LogType::Info), &loggers).len(), 2);
}

#[test]
fn follow_ups_tell_of_every_failure_in_order() {
    let reactions = vec![
        Reaction::Ignored,
        Reaction::Failed { error: FsmError::new(ErrorType::NoMatchingRule, "first".to_string()) },
        Reaction::Write { text: "x".to_string(), level: LogType::Error },
        Reaction::Failed { error: FsmError::new(ErrorType::MoveFailed, "second".to_string()) },
        Reaction::Forward { text: "y".to_string() },
    ];
    let messages = follow_ups(&reactions);
    assert_eq!(messages.len(), 2);
    match (&messages[0], &messages[1]) {
        (
            Message::Log { message: a, message_type: la },
            Message::Log { message: b, message_type: lb },
        ) => {
            assert_eq!(a, "first");
            assert_eq!(b, "second");
            assert_eq!(*la, LogType::Error);
            assert_eq!(*lb, LogType::Error);
        }
        other => panic!("{:?}", other),
    }
    assert!(follow_ups(&Vec::new()).is_empty());
    assert!(follow_ups(&vec![Reaction::Ignored]).is_empty());
}

#[test]
fn delivery_with_a_failure_has_one_follow_up() {
    let mut bus = MessageManager::new();
    bus.add_receiver(Receiver::Logger(Logger::new()));
    bus.add_receiver(Receiver::PathWriter(router(false)));
    let reactions = bus.publish(&discovery("/watch/a.png"));
    let messages = follow_ups(&reactions);
    assert_eq!(messages.len(), 1);
    match &messages[0] {
        Message::Log { message, message_type } => {
            assert_eq!(message, "The file /watch/a.png does not match any filters.");
            assert_eq!(*message_type, LogType::Error);
        }
        other => panic!("{:?}", other),
    }
    assert!(follow_ups(&bus.publish(&discovery("/watch/a.txt"))).is_empty());
}
