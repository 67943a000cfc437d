//! A file sorter: files that arrive in a watched directory are classified by
//! ordered filter rules and relocated into a managed directory tree, with every
//! step announced to the registered consumers of a message bus.
//!
//! The library holds the decisions. Reading directories, renaming files,
//! sleeping and listening to the operating system are left to the caller, who
//! reports what it saw as plain values and carries out what the library
//! answers.

pub mod config;
pub mod data;
pub mod error;
pub mod filepath;
pub mod filter;
pub mod path;
pub mod pattern;
pub mod reader;
pub mod sweep;
pub mod text;
pub mod watch;
pub mod writer;

use vstd::prelude::*;
use crate::config::{invalid_path, refuse_path, ConfigManager, ConfigView};
use crate::data::{DataSource, Logger, MessageManager, PathWriter, Receiver, SourceType};
use crate::error::{ErrorType, FsmError, FsmErrorView};
use crate::filepath::{directory_index, FilepathManager};
use crate::filter::FilterManager;
use crate::reader::FsmConfigRepresentation;
use crate::sweep::{DirectorySweeper, SweeperView};
use crate::watch::{DirectoryWatcher, WatcherView};

verus! {

/// What the caller found and did before the sorter is wired: whether the two
/// directories of the configuration exist, how the creation of the managed
/// tree went, and whether the watch on the source directory was established.
/// A step that an earlier failure made pointless is reported as `Ok`.
#[derive(Debug)]
pub struct StartupReport {
    pub watch_path_exists: bool,
    pub managed_path_exists: bool,
    pub directories: Result<(), String>,
    pub subscription: Result<(), String>,
}

/// The running sorter: its configuration, the bus with its consumers, and the
/// two producers.
pub struct FsmState {
    pub config_manager: ConfigManager,
    pub message_manager: MessageManager,
    pub sweeper: DirectorySweeper,
    pub watcher: DirectoryWatcher,
}

/// The failure for a sweep interval of more seconds than 64 bits hold.
pub open spec fn interval_too_long() -> FsmErrorView {
    FsmErrorView {
        error_type: ErrorType::ConfigError,
        message: "The sweep interval is too long."@,
    }
}

/// The failure that keeps the sorter from starting, if there is one: a
/// directory of the configuration that does not exist, an interval that is
/// too long, a managed tree that could not be created, a watch that could not
/// be established; the first of these in this order.
pub open spec fn startup_failure(config: FsmConfigRepresentation, report: StartupReport) -> Option<
    FsmErrorView,
> {
    if !report.watch_path_exists {
        Some(invalid_path(config.watch_path@))
    } else if !report.managed_path_exists {
        Some(invalid_path(config.managed_path@))
    } else if config.sweep_interval.total() > u64::MAX {
        Some(interval_too_long())
    } else {
        match report.directories {
            Err(cause) => Some(
                FsmErrorView { error_type: ErrorType::FilesystemFailure, message: cause@ },
            ),
            Ok(_) => match report.subscription {
                Err(cause) => Some(
                    FsmErrorView { error_type: ErrorType::WatcherInitError, message: cause@ },
                ),
                Ok(_) => None,
            },
        }
    }
}

impl FsmState {
    /// Whether the sorter is wired as `config` asks: the logger and the
    /// router are the consumers, in this order, the router with the rules of
    /// the configuration and the index of its managed tree; the sweeper and
    /// the watcher are registered, in this order, both with consumers; the
    /// sweeper runs on the watched directory and the watcher watches it.
    pub open spec fn wired_for(&self, config: FsmConfigRepresentation) -> bool {
        &&& self.config_manager@ == (ConfigView {
            watch_path: config.watch_path@,
            manage_path: config.managed_path@,
            overwrite_on_move: config.overwrite_on_move,
        })
        &&& self.message_manager.receivers().len() == 2
        &&& self.message_manager.receivers()[0] is Logger
        &&& self.message_manager.receivers()[1] matches Receiver::PathWriter(router)
        &&& router.overwrites() == config.overwrite_on_move
        &&& router.rules() == config.filters@
        &&& router.index() == directory_index(
            config.managed_path@,
            config.managed_directory_structure,
        )
        &&& self.message_manager.sources() == seq![SourceType::Sweeper, SourceType::Watcher]
        &&& self.sweeper@ == (SweeperView {
            repeat_duration: config.sweep_interval.total() as u64,
            running: true,
            receivers: true,
            path: config.watch_path@,
            terminal: None,
        })
        &&& self.watcher@ == (WatcherView {
            path: config.watch_path@,
            receivers: true,
            watching: true,
        })
    }

    /// Shuts the sorter down: the watcher announces nothing from now on and
    /// the sweeper is idle. The answer is the failure that ended the
    /// sweeper's loop, if one did. Shutting down twice is no error.
    pub fn shutdown(&mut self) -> (ended: Result<(), FsmError>)
        ensures
            final(self).config_manager == old(self).config_manager,
            final(self).message_manager == old(self).message_manager,
            final(self).watcher@ == (WatcherView { watching: false, ..old(self).watcher@ }),
            final(self).sweeper@ == old(self).sweeper@.after_stop(),
            match ended {
                Ok(_) => !old(self).sweeper@.running || old(self).sweeper@.terminal is None,
                Err(error) => old(self).sweeper@.running && old(self).sweeper@.terminal == Some(
                    error@,
                ),
            },
    {
        self.watcher.stop();
        self.sweeper.end_sweep()
    }
}

/// Wires the sorter for `config`, given what `report` says of the steps
/// that had to be taken on disk and with the operating system. It fails with
/// the first failure among them, and then nothing is wired.
pub fn init_fsm(config: FsmConfigRepresentation, report: StartupReport) -> (state: Result<
    FsmState,
    FsmError,
>)
    ensures
        match state {
            Ok(wired) => startup_failure(config, report) is None && wired.wired_for(config),
            Err(error) => startup_failure(config, report) == Some(error@),
        },
{
    if !report.watch_path_exists {
        return Err(refuse_path(config.watch_path.as_str()));
    }
    if !report.managed_path_exists {
        return Err(refuse_path(config.managed_path.as_str()));
    }
    let seconds: u64 = match config.sweep_interval.total_seconds() {
        Some(seconds) => seconds,
        None => {
            return Err(
                FsmError::new(
                    ErrorType::ConfigError,
                    String::from_str("The sweep interval is too long."),
                ),
            );
        },
    };
    let config_manager = ConfigManager::new(
        config.watch_path.as_str(),
        config.managed_path.as_str(),
        config.overwrite_on_move,
    );
    let filepath_manager = match FilepathManager::new(
        config_manager.get_manage_path().as_str(),
        &config.managed_directory_structure,
        report.directories,
    ) {
        Ok(index) => index,
        Err(error) => {
            return Err(error);
        },
    };
    let mut watcher = match DirectoryWatcher::new(&config_manager, report.subscription) {
        Ok(watcher) => watcher,
        Err(error) => {
            return Err(error);
        },
    };
    let filter_manager = FilterManager::new(config.filters);
    let mut message_manager = MessageManager::new();
    message_manager.add_receiver(Receiver::Logger(Logger::new()));
    let router = PathWriter::new(
        config_manager.perform_overwrite_on_move(),
        filepath_manager,
        filter_manager,
    );
    message_manager.add_receiver(Receiver::PathWriter(router));
    let mut sweeper = DirectorySweeper::new(seconds);
    message_manager.add_source(&mut sweeper);
    message_manager.add_source(&mut watcher);
    match sweeper.start_sweep(config_manager.get_watch_path().as_str()) {
        Ok(_) => {},
        Err(error) => {
            return Err(error);
        },
    }
    let wired = FsmState { config_manager, message_manager, sweeper, watcher };
    proof {
        assert(wired.message_manager.sources() =~= seq![SourceType::Sweeper, SourceType::Watcher]);
    }
    Ok(wired)
}

} // verus!
