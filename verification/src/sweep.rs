//! The sweeper: at every tick the watched directory is listed in full and
//! each entry announced, whether or not the watcher saw it arrive.
//!
//! The sweeper is idle or running. The caller owns the loop: it rests for the
//! interval, lists the directory, hands the listing to `sweep`, publishes the
//! messages and goes on while `sweep` says so.

use vstd::prelude::*;
use crate::data::{message_views, DataSource, LogType, Message, MessageView, SourceType};
use crate::error::{ErrorType, FsmError, FsmErrorView};
use crate::text::{compose, decimal, decimal_string};

verus! {

/// What the caller found when it listed the watched directory.
#[derive(Debug)]
pub enum DirectoryListing {
    /// There is nothing at the path.
    Missing,
    /// What is at the path is no directory.
    NotADirectory,
    /// The directory could not be read, for `cause`.
    Unreadable { cause: String },
    /// The entries of the directory: the path of each, or the cause for
    /// which it could not be read.
    Entries { entries: Vec<Result<String, String>> },
}

/// What one tick of the sweeper gives: the messages to publish, in order,
/// and whether the loop goes on.
#[derive(Debug)]
pub struct SweepTick {
    pub messages: Vec<Message>,
    pub keep_going: bool,
}

/// The message that announces one entry of the directory: the discovery of
/// its path, or its failure as an error for the log.
pub open spec fn entry_message(entry: Result<String, String>) -> MessageView {
    match entry {
        Ok(path) => MessageView::FileMove { file_to_move: path@ },
        Err(cause) => MessageView::Log { message: cause@, message_type: LogType::Error },
    }
}

/// The messages that announce the entries of the directory, in their order.
pub open spec fn entry_messages(entries: Seq<Result<String, String>>) -> Seq<MessageView> {
    Seq::new(entries.len(), |i: int| entry_message(entries[i]))
}

/// How many of the entries could be read.
pub open spec fn found_count(entries: Seq<Result<String, String>>) -> nat
    decreases entries.len(),
{
    if entries.len() == 0 {
        0
    } else {
        found_count(entries.drop_last()) + if entries.last() is Ok {
            1nat
        } else {
            0nat
        }
    }
}

/// The summary of a sweep of `path` that found `count` entries and announced
/// `processed` of them.
pub open spec fn summary_line(count: nat, path: Seq<char>, processed: nat) -> Seq<char> {
    "Found "@ + decimal(count) + " files in \""@ + path + "\", "@ + decimal(processed)
        + " succesfully moved."@
}

/// The line that says that nothing is at `path`.
pub open spec fn missing_line(path: Seq<char>) -> Seq<char> {
    "The path \""@ + path + "\" does not exist."@
}

/// The line that says that `path` is no directory.
pub open spec fn not_a_directory_line(path: Seq<char>) -> Seq<char> {
    "The path \""@ + path + "\" is not a directory."@
}

/// The failure that ends the sweeping of `path` for good: the watched
/// directory is missing or is no directory. Other listings end nothing.
pub open spec fn sweep_failure(path: Seq<char>, listing: DirectoryListing) -> Option<
    FsmErrorView,
> {
    match listing {
        DirectoryListing::Missing => Some(
            FsmErrorView { error_type: ErrorType::FilesystemFailure, message: missing_line(path) },
        ),
        DirectoryListing::NotADirectory => Some(
            FsmErrorView {
                error_type: ErrorType::FilesystemFailure,
                message: not_a_directory_line(path),
            },
        ),
        _ => None,
    }
}

/// The messages of one sweep of `path`: for a listing with entries one
/// message per entry, then the summary; else one error for the log.
pub open spec fn sweep_messages(path: Seq<char>, listing: DirectoryListing) -> Seq<MessageView> {
    match listing {
        DirectoryListing::Missing => seq![
            MessageView::Log { message: missing_line(path), message_type: LogType::Error },
        ],
        DirectoryListing::NotADirectory => seq![
            MessageView::Log { message: not_a_directory_line(path), message_type: LogType::Error },
        ],
        DirectoryListing::Unreadable { cause } => seq![
            MessageView::Log { message: cause@, message_type: LogType::Error },
        ],
        DirectoryListing::Entries { entries } => entry_messages(entries@).push(
            MessageView::Log {
                message: summary_line(entries@.len(), path, found_count(entries@)),
                message_type: LogType::Info,
            },
        ),
    }
}

/// The sweeper.
#[derive(Debug)]
pub struct DirectorySweeper {
    repeat_duration: u64,
    running: bool,
    receivers: bool,
    path_to_watch: String,
    terminal: Option<FsmError>,
}

/// What a `DirectorySweeper` holds: the seconds between two sweeps, whether
/// it is running, whether it has consumers, the directory that it sweeps,
/// and the failure that ended its loop, if one did.
pub ghost struct SweeperView {
    pub repeat_duration: u64,
    pub running: bool,
    pub receivers: bool,
    pub path: Seq<char>,
    pub terminal: Option<FsmErrorView>,
}

impl View for DirectorySweeper {
    type V = SweeperView;

    closed spec fn view(&self) -> SweeperView {
        SweeperView {
            repeat_duration: self.repeat_duration,
            running: self.running,
            receivers: self.receivers,
            path: self.path_to_watch@,
            terminal: match self.terminal {
                Some(error) => Some(error@),
                None => None,
            },
        }
    }
}

impl SweeperView {
    /// Whether a tick sweeps: the sweeper runs and its loop has not failed.
    pub open spec fn sweeping(self) -> bool {
        self.running && self.terminal is None
    }

    /// The messages of a tick with `listing`: those of the sweep while the
    /// sweeper sweeps, none once it has stopped or failed.
    pub open spec fn tick_messages(self, listing: DirectoryListing) -> Seq<MessageView> {
        if self.sweeping() {
            sweep_messages(self.path, listing)
        } else {
            Seq::empty()
        }
    }

    /// The sweeper after a tick with `listing`.
    pub open spec fn after_tick(self, listing: DirectoryListing) -> SweeperView {
        if self.sweeping() {
            SweeperView { terminal: sweep_failure(self.path, listing), ..self }
        } else {
            self
        }
    }

    /// The sweeper after a stop.
    pub open spec fn after_stop(self) -> SweeperView {
        if self.running {
            SweeperView { running: false, terminal: None, ..self }
        } else {
            self
        }
    }
}

/// The failure of a sweeper that is started without consumers.
pub open spec fn no_receivers() -> FsmErrorView {
    FsmErrorView { error_type: ErrorType::ApplicationError, message: "No receivers."@ }
}

/// A stopped sweeper is silent: once `end_sweep` has returned, no tick
/// publishes anything, whatever the directory holds, and stopping again
/// changes nothing.
pub proof fn lemma_stopped_sweeper_is_silent(sweeper: SweeperView, listing: DirectoryListing)
    ensures
        sweeper.after_stop().tick_messages(listing).len() == 0,
        sweeper.after_stop().after_tick(listing) == sweeper.after_stop(),
        sweeper.after_stop().after_stop() == sweeper.after_stop(),
{
}

/// An error for the log.
fn error_log(text: String) -> (message: Message)
    ensures
        message@ == (MessageView::Log { message: text@, message_type: LogType::Error }),
{
    Message::Log { message: text, message_type: LogType::Error }
}

/// Writes the summary of a sweep.
fn write_summary(count: usize, path: &str, processed: usize) -> (line: String)
    ensures
        line@ == summary_line(count as nat, path@, processed as nat),
{
    let mut line = String::from_str("Found ");
    line.append(decimal_string(count as u64).as_str());
    line.append(" files in \"");
    line.append(path);
    line.append("\", ");
    line.append(decimal_string(processed as u64).as_str());
    line.append(" succesfully moved.");
    line
}

/// The messages of one sweep of `path_to_sweep`, given what listing it gave:
/// one discovery per entry that could be read, one error per entry that
/// could not, and the summary with both counts at the end; or the one error
/// for which there are no entries.
pub fn sweep(path_to_sweep: &str, listing: &DirectoryListing) -> (messages: Vec<Message>)
    ensures
        message_views(messages@) == sweep_messages(path_to_sweep@, *listing),
{
    let mut messages: Vec<Message> = Vec::new();
    match listing {
        DirectoryListing::Missing => {
            messages.push(error_log(compose("The path \"", path_to_sweep, "\" does not exist.")));
            assert(message_views(messages@) =~= sweep_messages(path_to_sweep@, *listing));
        },
        DirectoryListing::NotADirectory => {
            messages.push(
                error_log(compose("The path \"", path_to_sweep, "\" is not a directory.")),
            );
            assert(message_views(messages@) =~= sweep_messages(path_to_sweep@, *listing));
        },
        DirectoryListing::Unreadable { cause } => {
            messages.push(error_log(cause.clone()));
            assert(message_views(messages@) =~= sweep_messages(path_to_sweep@, *listing));
        },
        DirectoryListing::Entries { entries } => {
            let mut processed: usize = 0;
            let mut i: usize = 0;
            assert(message_views(messages@) =~= entry_messages(entries@).take(0));
            assert(entries@.take(0) =~= Seq::<Result<String, String>>::empty());
            while i < entries.len()
                invariant
                    i <= entries.len(),
                    processed <= i,
                    processed == found_count(entries@.take(i as int)),
                    message_views(messages@) == entry_messages(entries@).take(i as int),
                decreases entries.len() - i,
            {
                let ghost sent = message_views(messages@);
                match &entries[i] {
                    Ok(path) => {
                        messages.push(Message::FileMove { file_to_move: path.clone() });
                        processed += 1;
                    },
                    Err(cause) => {
                        messages.push(error_log(cause.clone()));
                    },
                }
                proof {
                    assert(entries@.take(i as int + 1).drop_last() =~= entries@.take(i as int));
                    assert(message_views(messages@) =~= sent.push(entry_message(entries@[i as int])));
                    assert(message_views(messages@) =~= entry_messages(entries@).take(
                        i as int + 1,
                    ));
                }
                i += 1;
            }
            proof {
                assert(entries@.take(i as int) =~= entries@);
                assert(entry_messages(entries@).take(i as int) =~= entry_messages(entries@));
            }
            let ghost sent = message_views(messages@);
            let summary = write_summary(entries.len(), path_to_sweep, processed);
            messages.push(Message::Log { message: summary, message_type: LogType::Info });
            assert(message_views(messages@) =~= sent.push(
                MessageView::Log {
                    message: summary_line(
                        entries@.len(),
                        path_to_sweep@,
                        found_count(entries@),
                    ),
                    message_type: LogType::Info,
                },
            ));
        },
    }
    messages
}

/// The failure that ends the sweeping of `path_to_sweep` for good, where the
/// listing shows one.
fn failure_of(path_to_sweep: &str, listing: &DirectoryListing) -> (failure: Option<FsmError>)
    ensures
        match failure {
            Some(error) => sweep_failure(path_to_sweep@, *listing) == Some(error@),
            None => sweep_failure(path_to_sweep@, *listing) is None,
        },
{
    match listing {
        DirectoryListing::Missing => Some(
            FsmError::new(
                ErrorType::FilesystemFailure,
                compose("The path \"", path_to_sweep, "\" does not exist."),
            ),
        ),
        DirectoryListing::NotADirectory => Some(
            FsmError::new(
                ErrorType::FilesystemFailure,
                compose("The path \"", path_to_sweep, "\" is not a directory."),
            ),
        ),
        _ => None,
    }
}

impl DirectorySweeper {
    /// An idle sweeper without consumers that rests `repeat_duration`
    /// seconds between two sweeps.
    pub fn new(repeat_duration: u64) -> (sweeper: Self)
        ensures
            sweeper@ == (SweeperView {
                repeat_duration,
                running: false,
                receivers: false,
                path: Seq::empty(),
                terminal: None,
            }),
    {
        Self {
            repeat_duration,
            running: false,
            receivers: false,
            path_to_watch: String::new(),
            terminal: None,
        }
    }

    /// The seconds between two sweeps.
    pub fn repeat_duration(&self) -> (seconds: u64)
        ensures
            seconds == self@.repeat_duration,
    {
        self.repeat_duration
    }

    /// Whether the sweeper is running.
    pub fn is_running(&self) -> (running: bool)
        ensures
            running == self@.running,
    {
        self.running
    }

    /// Starts the sweeping of `path_to_watch`. The answer is whether a loop
    /// is to be started: a sweeper that runs already stays as it is and
    /// answers no. A sweeper without consumers cannot start.
    pub fn start_sweep(&mut self, path_to_watch: &str) -> (started: Result<bool, FsmError>)
        ensures
            old(self)@.running ==> started == Ok::<bool, FsmError>(false),
            old(self)@.running ==> final(self)@ == old(self)@,
            !old(self)@.running && !old(self)@.receivers ==> (started matches Err(error) && error@
                == no_receivers()) && final(self)@ == old(self)@,
            !old(self)@.running && old(self)@.receivers ==> started == Ok::<bool, FsmError>(true)
                && final(self)@ == (SweeperView {
                running: true,
                path: path_to_watch@,
                terminal: None,
                ..old(self)@
            }),
    {
        if self.running {
            return Ok(false);
        }
        if !self.receivers {
            return Err(
                FsmError::new(ErrorType::ApplicationError, String::from_str("No receivers.")),
            );
        }
        self.running = true;
        self.path_to_watch = String::from_str(path_to_watch);
        self.terminal = None;
        Ok(true)
    }

    /// One tick of the loop: the messages of the sweep, and whether the loop
    /// goes on. A missing watched directory, or one that is no directory,
    /// ends the loop for good. A sweeper that has stopped, or whose loop has
    /// ended, publishes nothing.
    pub fn tick(&mut self, listing: &DirectoryListing) -> (tick: SweepTick)
        ensures
            message_views(tick.messages@) == old(self)@.tick_messages(*listing),
            final(self)@ == old(self)@.after_tick(*listing),
            tick.keep_going == final(self)@.sweeping(),
    {
        if !self.running || self.terminal.is_some() {
            let messages: Vec<Message> = Vec::new();
            assert(message_views(messages@) =~= Seq::<MessageView>::empty());
            return SweepTick { messages, keep_going: false };
        }
        let messages = sweep(self.path_to_watch.as_str(), listing);
        let failure = failure_of(self.path_to_watch.as_str(), listing);
        let keep_going = failure.is_none();
        self.terminal = failure;
        SweepTick { messages, keep_going }
    }

    /// Stops the sweeper. Where its loop has ended with a failure, that
    /// failure is the answer. Stopping an idle sweeper does nothing.
    pub fn end_sweep(&mut self) -> (ended: Result<(), FsmError>)
        ensures
            final(self)@ == old(self)@.after_stop(),
            match ended {
                Ok(_) => !old(self)@.running || old(self)@.terminal is None,
                Err(error) => old(self)@.running && old(self)@.terminal == Some(error@),
            },
    {
        if !self.running {
            return Ok(());
        }
        self.running = false;
        match self.terminal.take() {
            Some(error) => Err(error),
            None => Ok(()),
        }
    }
}

impl DataSource for DirectorySweeper {
    open spec fn has_receivers(&self) -> bool {
        self@.receivers
    }

    fn get_receivers(&self) -> (given: bool) {
        self.receivers
    }

    open spec fn same_otherwise(&self, before: &Self) -> bool {
        self@ == (SweeperView { receivers: self@.receivers, ..before@ })
    }

    fn set_receivers(&mut self) {
        self.receivers = true;
    }

    open spec fn kind(&self) -> SourceType {
        SourceType::Sweeper
    }

    fn source_type(&self) -> (kind: SourceType) {
        SourceType::Sweeper
    }
}

} // verus!
