//! The watcher: of the changes that the operating system reports for the
//! watched directory, the creations are announced as discoveries.
//!
//! The caller holds the subscription and coalesces bursts over the debounce
//! window. It hands each batch to `announce` and publishes what comes back.

use vstd::prelude::*;
use crate::config::ConfigManager;
use crate::data::{message_views, DataSource, LogType, Message, MessageView, SourceType};
use crate::error::{ErrorType, FsmError, FsmErrorView};

verus! {

/// The seconds over which bursts of changes are coalesced.
pub const DEBOUNCE_SECONDS: u64 = 1;

/// What kind of change an event tells of.
#[derive(Debug, Clone, Copy, PartialEq, Eq, Structural)]
pub enum WatchEventKind {
    Any,
    Access,
    Create,
    Modify,
    Remove,
    Other,
}

/// One change in the watched directory: its kind and the paths that it
/// concerns.
#[derive(Debug)]
pub struct WatchEvent {
    pub kind: WatchEventKind,
    pub paths: Vec<String>,
}

/// The discovery that an event stands for: the first path of a creation.
/// Other events, and creations without path, stand for none.
pub open spec fn discovery(event: WatchEvent) -> Option<MessageView> {
    if event.kind == WatchEventKind::Create && event.paths@.len() > 0 {
        Some(MessageView::FileMove { file_to_move: event.paths@[0]@ })
    } else {
        None
    }
}

/// The discoveries that a batch of events stands for, in the order of the
/// events.
pub open spec fn discoveries(events: Seq<WatchEvent>) -> Seq<MessageView>
    decreases events.len(),
{
    if events.len() == 0 {
        Seq::empty()
    } else {
        let before = discoveries(events.drop_last());
        match discovery(events.last()) {
            Some(message) => before.push(message),
            None => before,
        }
    }
}

/// The errors of a failed batch as messages for the log, in their order.
pub open spec fn error_logs(errors: Seq<String>) -> Seq<MessageView> {
    Seq::new(
        errors.len(),
        |i: int| MessageView::Log { message: errors[i]@, message_type: LogType::Error },
    )
}

/// The messages that a batch stands for: the discoveries of its events, or
/// its errors for the log.
pub open spec fn batch_messages(batch: Result<Vec<WatchEvent>, Vec<String>>) -> Seq<MessageView> {
    match batch {
        Ok(events) => discoveries(events@),
        Err(errors) => error_logs(errors@),
    }
}

/// The watcher.
#[derive(Debug)]
pub struct DirectoryWatcher {
    watch_path: String,
    receivers: bool,
    watching: bool,
}

/// What a `DirectoryWatcher` holds: the directory that it watches, whether
/// it has consumers, and whether it still watches.
pub ghost struct WatcherView {
    pub path: Seq<char>,
    pub receivers: bool,
    pub watching: bool,
}

impl View for DirectoryWatcher {
    type V = WatcherView;

    closed spec fn view(&self) -> WatcherView {
        WatcherView { path: self.watch_path@, receivers: self.receivers, watching: self.watching }
    }
}

impl DirectoryWatcher {
    /// The watcher of the directory that `config_manager` names.
    /// `subscription` says whether the watch on it was established, or for
    /// what cause it was not: without it there is no watcher.
    pub fn new(config_manager: &ConfigManager, subscription: Result<(), String>) -> (watcher: Result<
        Self,
        FsmError,
    >)
        ensures
            match subscription {
                Ok(_) => watcher matches Ok(w) && w@ == (WatcherView {
                    path: config_manager@.watch_path,
                    receivers: false,
                    watching: true,
                }),
                Err(cause) => watcher matches Err(error) && error@ == (FsmErrorView {
                    error_type: ErrorType::WatcherInitError,
                    message: cause@,
                }),
            },
    {
        match subscription {
            Ok(_) => Ok(
                Self {
                    watch_path: config_manager.get_watch_path().clone(),
                    receivers: false,
                    watching: true,
                },
            ),
            Err(cause) => Err(FsmError::new(ErrorType::WatcherInitError, cause)),
        }
    }

    /// The directory that is watched.
    pub fn watch_path(&self) -> (path: &String)
        ensures
            path@ == self@.path,
    {
        &self.watch_path
    }

    /// Whether the watcher still watches.
    pub fn is_watching(&self) -> (watching: bool)
        ensures
            watching == self@.watching,
    {
        self.watching
    }

    /// The messages to publish for a batch of changes: one discovery for
    /// each creation, with its first path, or one error for the log for each
    /// error of a failed batch. A watcher that was stopped announces
    /// nothing.
    pub fn announce(&self, batch: &Result<Vec<WatchEvent>, Vec<String>>) -> (messages: Vec<Message>)
        ensures
            self@.watching ==> message_views(messages@) == batch_messages(*batch),
            !self@.watching ==> messages@.len() == 0,
    {
        let mut messages: Vec<Message> = Vec::new();
        if !self.watching {
            return messages;
        }
        match batch {
            Ok(events) => {
                let mut i: usize = 0;
                assert(events@.take(0) =~= Seq::<WatchEvent>::empty());
                assert(message_views(messages@) =~= Seq::<MessageView>::empty());
                while i < events.len()
                    invariant
                        i <= events.len(),
                        message_views(messages@) == discoveries(events@.take(i as int)),
                    decreases events.len() - i,
                {
                    let ghost sent = message_views(messages@);
                    let event = &events[i];
                    proof {
                        assert(events@.take(i as int + 1).drop_last() =~= events@.take(i as int));
                        assert(events@.take(i as int + 1).last() == events@[i as int]);
                    }
                    if event.kind == WatchEventKind::Create && event.paths.len() > 0 {
                        messages.push(Message::FileMove { file_to_move: event.paths[0].clone() });
                        assert(message_views(messages@) =~= sent.push(
                            MessageView::FileMove { file_to_move: event.paths@[0]@ },
                        ));
                    }
                    i += 1;
                }
                assert(events@.take(i as int) =~= events@);
            },
            Err(errors) => {
                let mut i: usize = 0;
                assert(message_views(messages@) =~= error_logs(errors@).take(0));
                while i < errors.len()
                    invariant
                        i <= errors.len(),
                        message_views(messages@) == error_logs(errors@).take(i as int),
                    decreases errors.len() - i,
                {
                    let ghost sent = message_views(messages@);
                    messages.push(
                        Message::Log { message: errors[i].clone(), message_type: LogType::Error },
                    );
                    assert(message_views(messages@) =~= sent.push(
                        MessageView::Log { message: errors@[i as int]@, message_type: LogType::Error },
                    ));
                    assert(message_views(messages@) =~= error_logs(errors@).take(i as int + 1));
                    i += 1;
                }
                assert(error_logs(errors@).take(i as int) =~= error_logs(errors@));
            },
        }
        messages
    }

    /// Stops the watcher: from now on it announces nothing. Stopping twice
    /// is the same as stopping once.
    pub fn stop(&mut self)
        ensures
            final(self)@ == (WatcherView { watching: false, ..old(self)@ }),
    {
        self.watching = false;
    }
}

impl DataSource for DirectoryWatcher {
    open spec fn has_receivers(&self) -> bool {
        self@.receivers
    }

    fn get_receivers(&self) -> (given: bool) {
        self.receivers
    }

    open spec fn same_otherwise(&self, before: &Self) -> bool {
        self@ == (WatcherView { receivers: self@.receivers, ..before@ })
    }

    fn set_receivers(&mut self) {
        self.receivers = true;
    }

    open spec fn kind(&self) -> SourceType {
        SourceType::Watcher
    }

    fn source_type(&self) -> (kind: SourceType) {
        SourceType::Watcher
    }
}

} // verus!
