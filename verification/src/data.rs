//! The message bus: producers announce, every registered consumer reacts.
//!
//! A consumer does not act by itself. It answers each message with a
//! reaction, which says what is to be done: a line to log, a file to move,
//! a text to show. Delivery is the list of these answers, one per consumer,
//! in the order of registration.

use vstd::prelude::*;
use crate::error::{report_line, FsmError, FsmErrorView};
use crate::filepath::FilepathManager;
use crate::filter::{placement, FileFilter, FilterManager};
use crate::text::compose;
use crate::writer::{DataMessage, DataMessageView};

verus! {

/// The severity of a log message.
#[derive(Debug, Clone, Copy, PartialEq, Eq, Structural)]
pub enum LogType {
    Info,
    Error,
    Warning,
}

/// What travels on the bus: the discovery of a file, or a line for the log.
#[derive(Debug)]
pub enum Message {
    FileMove { file_to_move: String },
    Log { message: String, message_type: LogType },
}

/// What a `Message` holds.
pub ghost enum MessageView {
    FileMove { file_to_move: Seq<char> },
    Log { message: Seq<char>, message_type: LogType },
}

impl View for Message {
    type V = MessageView;

    open spec fn view(&self) -> MessageView {
        match self {
            Message::FileMove { file_to_move } => MessageView::FileMove {
                file_to_move: file_to_move@,
            },
            Message::Log { message, message_type } => MessageView::Log {
                message: message@,
                message_type: *message_type,
            },
        }
    }
}

/// The views of a list of messages.
pub open spec fn message_views(messages: Seq<Message>) -> Seq<MessageView> {
    messages.map_values(|m: Message| m@)
}

/// What a consumer answers to a message.
#[derive(Debug)]
pub enum Reaction {
    /// Nothing to do.
    Ignored,
    /// Write `text` to the log at `level`.
    Write { text: String, level: LogType },
    /// Carry out `request`; `overwrite` says whether the move may replace a
    /// file.
    Move { request: DataMessage, overwrite: bool },
    /// Show `text` to the observers of the dashboard.
    Forward { text: String },
    /// The consumer could not process the message.
    Failed { error: FsmError },
}

/// What a `Reaction` holds.
pub ghost enum ReactionView {
    Ignored,
    Write { text: Seq<char>, level: LogType },
    Move { request: DataMessageView, overwrite: bool },
    Forward { text: Seq<char> },
    Failed { error: FsmErrorView },
}

impl View for Reaction {
    type V = ReactionView;

    open spec fn view(&self) -> ReactionView {
        match self {
            Reaction::Ignored => ReactionView::Ignored,
            Reaction::Write { text, level } => ReactionView::Write { text: text@, level: *level },
            Reaction::Move { request, overwrite } => ReactionView::Move {
                request: request@,
                overwrite: *overwrite,
            },
            Reaction::Forward { text } => ReactionView::Forward { text: text@ },
            Reaction::Failed { error } => ReactionView::Failed { error: error@ },
        }
    }
}

/// The log message that tells of a failed reaction; none for the others.
pub open spec fn failure_notice(reaction: ReactionView) -> Option<MessageView> {
    match reaction {
        ReactionView::Failed { error } => Some(
            MessageView::Log { message: error.message, message_type: LogType::Error },
        ),
        _ => None,
    }
}

impl Reaction {
    /// The log message by which a failed reaction is made known: its message,
    /// as an error. The other reactions have none.
    pub fn notice(&self) -> (message: Option<Message>)
        ensures
            match message {
                Some(m) => failure_notice(self@) == Some(m@),
                None => failure_notice(self@) is None,
            },
    {
        match self {
            Reaction::Failed { error } => Some(
                Message::Log {
                    message: String::from_str(error.get_error_message()),
                    message_type: LogType::Error,
                },
            ),
            _ => None,
        }
    }
}

/// The log messages that tell of the failed reactions among `reactions`, in
/// their order.
pub open spec fn notices(reactions: Seq<Reaction>) -> Seq<MessageView>
    decreases reactions.len(),
{
    if reactions.len() == 0 {
        Seq::empty()
    } else {
        let before = notices(reactions.drop_last());
        match failure_notice(reactions.last()@) {
            Some(message) => before.push(message),
            None => before,
        }
    }
}

/// No failure goes unnoticed: the notice of every failed reaction is among
/// the notices of the delivery.
pub proof fn lemma_every_failure_has_its_notice(reactions: Seq<Reaction>, i: int)
    requires
        0 <= i < reactions.len(),
        failure_notice(reactions[i]@) is Some,
    ensures
        notices(reactions).contains(failure_notice(reactions[i]@)->0),
    decreases reactions.len(),
{
    let before = notices(reactions.drop_last());
    if i == reactions.len() - 1 {
        assert(notices(reactions).last() == failure_notice(reactions[i]@)->0);
    } else {
        assert(reactions.drop_last()[i] == reactions[i]);
        lemma_every_failure_has_its_notice(reactions.drop_last(), i);
        let at = choose|k: int|
            0 <= k < before.len() && before[k] == failure_notice(reactions[i]@)->0;
        assert(notices(reactions)[at] == before[at]);
    }
}

/// The messages to publish after a delivery: for every reaction that failed,
/// in the order of the reactions, the error that tells the log of it.
pub fn follow_ups(reactions: &Vec<Reaction>) -> (messages: Vec<Message>)
    ensures
        message_views(messages@) == notices(reactions@),
{
    let mut messages: Vec<Message> = Vec::new();
    let mut i: usize = 0;
    assert(reactions@.take(0) =~= Seq::<Reaction>::empty());
    assert(message_views(messages@) =~= Seq::<MessageView>::empty());
    while i < reactions.len()
        invariant
            i <= reactions.len(),
            message_views(messages@) == notices(reactions@.take(i as int)),
        decreases reactions.len() - i,
    {
        let ghost sent = message_views(messages@);
        proof {
            assert(reactions@.take(i as int + 1).drop_last() =~= reactions@.take(i as int));
            assert(reactions@.take(i as int + 1).last() == reactions@[i as int]);
        }
        match reactions[i].notice() {
            Some(message) => {
                messages.push(message);
                assert(message_views(messages@) =~= sent.push(
                    failure_notice(reactions@[i as int]@)->0,
                ));
            },
            None => {},
        }
        i += 1;
    }
    assert(reactions@.take(i as int) =~= reactions@);
    messages
}

/// The line that tells of a file that was moved from `from` to `to`.
pub open spec fn moved_line(from: Seq<char>, to: Seq<char>) -> Seq<char> {
    "File \""@ + from + "\" has been moved to \""@ + to + "\""@
}

/// The log message that tells how the relocation that `request` asked for
/// ended: where the file is now, or, as an error, why it stays.
pub open spec fn relocation_notice(
    request: DataMessageView,
    moved: Result<String, FsmError>,
) -> MessageView {
    match moved {
        Ok(path) => MessageView::Log {
            message: moved_line(request.from_path, path@),
            message_type: LogType::Info,
        },
        Err(error) => MessageView::Log {
            message: report_line(error@),
            message_type: LogType::Error,
        },
    }
}

/// Tells the log how the relocation that `request` asked for ended: no
/// failed move goes unreported.
pub fn report_relocation(request: &DataMessage, moved: &Result<String, FsmError>) -> (message:
    Message)
    ensures
        message@ == relocation_notice(request@, *moved),
{
    match moved {
        Ok(path) => {
            let mut line = compose("File \"", request.from_path.as_str(), "\" has been moved to \"");
            line.append(path.as_str());
            line.append("\"");
            Message::Log { message: line, message_type: LogType::Info }
        },
        Err(error) => Message::Log { message: error.describe(), message_type: LogType::Error },
    }
}

/// The kinds of consumers.
#[derive(Debug, Clone, Copy, PartialEq, Eq, Structural)]
pub enum ReceiverType {
    Logger,
    FileWriter,
    DashboardMessages,
}

/// The kinds of producers.
#[derive(Debug, Clone, Copy, PartialEq, Eq, Structural)]
pub enum SourceType {
    Watcher,
    Sweeper,
}

/// A consumer of the bus.
pub trait DataReceiver {
    /// What the consumer answers to `message`.
    spec fn reaction(&self, message: MessageView) -> ReactionView;

    /// Answers `message`.
    fn process_message(&self, message: &Message) -> (reaction: Reaction)
        ensures
            reaction@ == self.reaction(message@),
    ;

    /// The kind of this consumer.
    spec fn kind(&self) -> ReceiverType;

    /// The kind of this consumer.
    fn receiver_type(&self) -> (kind: ReceiverType)
        ensures
            kind == self.kind(),
    ;
}

/// A producer of the bus.
pub trait DataSource {
    /// Whether the producer has been given consumers to announce to.
    spec fn has_receivers(&self) -> bool;

    /// Whether the producer has been given consumers to announce to.
    fn get_receivers(&self) -> (given: bool)
        ensures
            given == self.has_receivers(),
    ;

    /// Whether the producer is as `before` in all but its consumers.
    spec fn same_otherwise(&self, before: &Self) -> bool;

    /// Gives the producer its consumers, and changes nothing else.
    fn set_receivers(&mut self)
        ensures
            final(self).has_receivers(),
            final(self).same_otherwise(old(self)),
    ;

    /// The kind of this producer.
    spec fn kind(&self) -> SourceType;

    /// The kind of this producer.
    fn source_type(&self) -> (kind: SourceType)
        ensures
            kind == self.kind(),
    ;

    /// Announces `message` to `receivers`, provided the producer has been
    /// given consumers; one that has not announces nothing.
    fn notify_receivers<R: DataReceiver>(&self, message: &Message, receivers: &Vec<R>) -> (reactions:
        Vec<Reaction>)
        ensures
            self.has_receivers() ==> delivered(message@, receivers@, reactions@),
            !self.has_receivers() ==> reactions@.len() == 0,
    {
        if self.get_receivers() {
            notify_receivers(message, receivers)
        } else {
            Vec::new()
        }
    }
}

/// `reactions` is the delivery of `message` to `receivers`: every consumer
/// answers once, in the order of registration, whatever the others answer.
pub open spec fn delivered<R: DataReceiver>(
    message: MessageView,
    receivers: Seq<R>,
    reactions: Seq<Reaction>,
) -> bool {
    &&& reactions.len() == receivers.len()
    &&& forall|i: int|
        0 <= i < receivers.len() ==> (#[trigger] reactions[i])@ == receivers[i].reaction(message)
}

/// Delivers `message` to every consumer of `receivers`, in their order. A
/// consumer that fails answers with its failure and the delivery goes on.
pub fn notify_receivers<R: DataReceiver>(message: &Message, receivers: &Vec<R>) -> (reactions: Vec<
    Reaction,
>)
    ensures
        delivered(message@, receivers@, reactions@),
{
    let mut reactions: Vec<Reaction> = Vec::new();
    let mut i: usize = 0;
    while i < receivers.len()
        invariant
            i <= receivers.len(),
            reactions@.len() == i,
            forall|j: int|
                0 <= j < i ==> (#[trigger] reactions@[j])@ == receivers@[j].reaction(message@),
        decreases receivers.len() - i,
    {
        let reaction = receivers[i].process_message(message);
        reactions.push(reaction);
        i += 1;
    }
    reactions
}

/// The line that tells of a discovered file.
pub open spec fn discovery_line(path: Seq<char>) -> Seq<char> {
    "Attempting to move file \""@ + path + "\" to mapped location."@
}

/// Writes the line that tells of a discovered file.
fn write_discovery_line(path: &str) -> (line: String)
    ensures
        line@ == discovery_line(path@),
{
    compose("Attempting to move file \"", path, "\" to mapped location.")
}

/// The consumer that keeps the log.
#[derive(Debug)]
pub struct Logger {}

impl Logger {
    /// The logger.
    pub fn new() -> Self {
        Self {  }
    }
}

impl DataReceiver for Logger {
    /// A log message is written at its severity, a discovery is noted at
    /// `Info`.
    open spec fn reaction(&self, message: MessageView) -> ReactionView {
        match message {
            MessageView::Log { message, message_type } => ReactionView::Write {
                text: message,
                level: message_type,
            },
            MessageView::FileMove { file_to_move } => ReactionView::Write {
                text: discovery_line(file_to_move),
                level: LogType::Info,
            },
        }
    }

    fn process_message(&self, message: &Message) -> (reaction: Reaction) {
        match message {
            Message::Log { message, message_type } => Reaction::Write {
                text: message.clone(),
                level: *message_type,
            },
            Message::FileMove { file_to_move } => Reaction::Write {
                text: write_discovery_line(file_to_move.as_str()),
                level: LogType::Info,
            },
        }
    }

    open spec fn kind(&self) -> ReceiverType {
        ReceiverType::Logger
    }

    fn receiver_type(&self) -> (kind: ReceiverType) {
        ReceiverType::Logger
    }
}

/// The consumer that shows what happens to the observers of the dashboard.
#[derive(Debug)]
pub struct DashboardMessageManager {}

impl DashboardMessageManager {
    /// The consumer of the dashboard.
    pub fn new() -> Self {
        Self {  }
    }
}

impl DataReceiver for DashboardMessageManager {
    /// Every message is forwarded: a log message as it is, a discovery by
    /// the line that tells of it.
    open spec fn reaction(&self, message: MessageView) -> ReactionView {
        match message {
            MessageView::Log { message, message_type } => ReactionView::Forward { text: message },
            MessageView::FileMove { file_to_move } => ReactionView::Forward {
                text: discovery_line(file_to_move),
            },
        }
    }

    fn process_message(&self, message: &Message) -> (reaction: Reaction) {
        match message {
            Message::Log { message, message_type } => Reaction::Forward { text: message.clone() },
            Message::FileMove { file_to_move } => Reaction::Forward {
                text: write_discovery_line(file_to_move.as_str()),
            },
        }
    }

    open spec fn kind(&self) -> ReceiverType {
        ReceiverType::DashboardMessages
    }

    fn receiver_type(&self) -> (kind: ReceiverType) {
        ReceiverType::DashboardMessages
    }
}

/// The consumer that routes discovered files: it holds the rules, the
/// directory index and the leave to overwrite.
pub struct PathWriter {
    overwrite_on_move: bool,
    filepath_manager: FilepathManager,
    filter_manager: FilterManager,
}

impl PathWriter {
    /// Whether a move may replace a file.
    pub closed spec fn overwrites(&self) -> bool {
        self.overwrite_on_move
    }

    /// The directory index.
    pub closed spec fn index(&self) -> Map<Seq<char>, Seq<char>> {
        self.filepath_manager@
    }

    /// The rules, in their order.
    pub closed spec fn rules(&self) -> Seq<FileFilter> {
        self.filter_manager.rules()
    }

    /// The router over the rules of `filter_manager` and the index
    /// `filepath_manager`.
    pub fn new(
        overwrite_on_move: bool,
        filepath_manager: FilepathManager,
        filter_manager: FilterManager,
    ) -> (writer: Self)
        ensures
            writer.overwrites() == overwrite_on_move,
            writer.index() == filepath_manager@,
            writer.rules() == filter_manager.rules(),
    {
        Self { overwrite_on_move, filepath_manager, filter_manager }
    }

    /// The directory index that the router looks keys up in.
    pub fn filepath_manager(&self) -> (index: &FilepathManager)
        ensures
            index@ == self.index(),
    {
        &self.filepath_manager
    }

    /// The rules that the router matches files against.
    pub fn filter_manager(&self) -> (manager: &FilterManager)
        ensures
            manager.rules() == self.rules(),
    {
        &self.filter_manager
    }
}

impl DataReceiver for PathWriter {
    /// A discovered file is placed by the rules and the index: the answer is
    /// the move that places it, or the failure for which it stays. Log
    /// messages are not the router's.
    open spec fn reaction(&self, message: MessageView) -> ReactionView {
        match message {
            MessageView::FileMove { file_to_move } => match placement(
                self.rules(),
                file_to_move,
                true,
                self.index(),
            ) {
                Ok(request) => ReactionView::Move { request, overwrite: self.overwrites() },
                Err(error) => ReactionView::Failed { error },
            },
            MessageView::Log { message, message_type } => ReactionView::Ignored,
        }
    }

    fn process_message(&self, message: &Message) -> (reaction: Reaction) {
        match message {
            Message::FileMove { file_to_move } => {
                match self.filter_manager.place_file_in_mapped_location(
                    file_to_move.as_str(),
                    true,
                    &self.filepath_manager,
                ) {
                    Ok(request) => Reaction::Move { request, overwrite: self.overwrite_on_move },
                    Err(error) => Reaction::Failed { error },
                }
            },
            Message::Log { message, message_type } => Reaction::Ignored,
        }
    }

    open spec fn kind(&self) -> ReceiverType {
        ReceiverType::FileWriter
    }

    fn receiver_type(&self) -> (kind: ReceiverType) {
        ReceiverType::FileWriter
    }
}

/// A consumer of one of the kinds that the sorter has.
pub enum Receiver {
    Logger(Logger),
    PathWriter(PathWriter),
    Dashboard(DashboardMessageManager),
}

impl DataReceiver for Receiver {
    open spec fn reaction(&self, message: MessageView) -> ReactionView {
        match self {
            Receiver::Logger(logger) => logger.reaction(message),
            Receiver::PathWriter(writer) => writer.reaction(message),
            Receiver::Dashboard(dashboard) => dashboard.reaction(message),
        }
    }

    fn process_message(&self, message: &Message) -> (reaction: Reaction) {
        match self {
            Receiver::Logger(logger) => logger.process_message(message),
            Receiver::PathWriter(writer) => writer.process_message(message),
            Receiver::Dashboard(dashboard) => dashboard.process_message(message),
        }
    }

    open spec fn kind(&self) -> ReceiverType {
        match self {
            Receiver::Logger(logger) => logger.kind(),
            Receiver::PathWriter(writer) => writer.kind(),
            Receiver::Dashboard(dashboard) => dashboard.kind(),
        }
    }

    fn receiver_type(&self) -> (kind: ReceiverType) {
        match self {
            Receiver::Logger(logger) => logger.receiver_type(),
            Receiver::PathWriter(writer) => writer.receiver_type(),
            Receiver::Dashboard(dashboard) => dashboard.receiver_type(),
        }
    }
}

/// The bus: the producers that were registered, by kind, and the consumers,
/// both in the order of registration.
pub struct MessageManager {
    sources: Vec<SourceType>,
    receivers: Vec<Receiver>,
}

impl MessageManager {
    /// The kinds of the registered producers, in the order of registration.
    pub closed spec fn sources(&self) -> Seq<SourceType> {
        self.sources@
    }

    /// The registered consumers, in the order of registration.
    pub closed spec fn receivers(&self) -> Seq<Receiver> {
        self.receivers@
    }

    /// A bus without producers and consumers.
    pub fn new() -> (bus: Self)
        ensures
            bus.sources().len() == 0,
            bus.receivers().len() == 0,
    {
        Self { sources: Vec::new(), receivers: Vec::new() }
    }

    /// Registers a producer behind those that are registered, and gives it
    /// the consumers of the bus.
    pub fn add_source<S: DataSource>(&mut self, source: &mut S)
        ensures
            final(source).has_receivers(),
            final(source).same_otherwise(old(source)),
            final(self).receivers() == old(self).receivers(),
            final(self).sources() == old(self).sources().push(final(source).kind()),
    {
        source.set_receivers();
        let kind = source.source_type();
        self.sources.push(kind);
    }

    /// Registers a consumer behind those that are registered.
    pub fn add_receiver(&mut self, receiver: Receiver)
        ensures
            final(self).receivers() == old(self).receivers().push(receiver),
            final(self).sources() == old(self).sources(),
    {
        self.receivers.push(receiver);
    }

    /// The registered consumers, in the order of registration.
    pub fn get_receivers(&self) -> (receivers: &Vec<Receiver>)
        ensures
            receivers@ == self.receivers(),
    {
        &self.receivers
    }

    /// The kinds of the registered producers, in the order of registration.
    pub fn get_sources(&self) -> (sources: &Vec<SourceType>)
        ensures
            sources@ == self.sources(),
    {
        &self.sources
    }

    /// Delivers `message` to every registered consumer, once each and in the
    /// order of registration. A consumer that fails answers with its failure
    /// and the delivery goes on with the next.
    pub fn publish(&self, message: &Message) -> (reactions: Vec<Reaction>)
        ensures
            delivered(message@, self.receivers(), reactions@),
    {
        notify_receivers(message, &self.receivers)
    }
}

} // verus!
