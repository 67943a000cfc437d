//! The paths and the policy that the sorter runs with.

use vstd::prelude::*;
use crate::error::{ErrorType, FsmError, FsmErrorView};
use crate::text::compose;

verus! {

/// The directory to watch, the directory to sort into, and whether a move
/// may replace a file.
#[derive(Debug)]
pub struct ConfigManager {
    base_path_to_watch: String,
    base_path_to_manage: String,
    overwrite_on_move: bool,
}

/// What a `ConfigManager` holds.
pub ghost struct ConfigView {
    pub watch_path: Seq<char>,
    pub manage_path: Seq<char>,
    pub overwrite_on_move: bool,
}

impl View for ConfigManager {
    type V = ConfigView;

    closed spec fn view(&self) -> ConfigView {
        ConfigView {
            watch_path: self.base_path_to_watch@,
            manage_path: self.base_path_to_manage@,
            overwrite_on_move: self.overwrite_on_move,
        }
    }
}

/// The failure that refuses `path` as a path of the configuration.
pub open spec fn invalid_path(path: Seq<char>) -> FsmErrorView {
    FsmErrorView {
        error_type: ErrorType::ConfigError,
        message: "Invalid path "@ + path + " provided."@,
    }
}

/// Refuses `path` as a path of the configuration.
pub fn refuse_path(path: &str) -> (error: FsmError)
    ensures
        error@ == invalid_path(path@),
{
    FsmError::new(ErrorType::ConfigError, compose("Invalid path ", path, " provided."))
}

impl ConfigManager {
    /// The configuration of a sorter that watches `base_path_to_watch` and
    /// sorts into `base_path_to_manage`.
    pub fn new(base_path_to_watch: &str, base_path_to_manage: &str, overwrite_on_move: bool) -> (config:
        Self)
        ensures
            config@ == (ConfigView {
                watch_path: base_path_to_watch@,
                manage_path: base_path_to_manage@,
                overwrite_on_move,
            }),
    {
        Self {
            base_path_to_watch: String::from_str(base_path_to_watch),
            base_path_to_manage: String::from_str(base_path_to_manage),
            overwrite_on_move,
        }
    }

    /// Watches `new_path` from now on, provided that it exists; a path that
    /// does not is refused with `ConfigError` and nothing changes.
    pub fn set_watch_path(&mut self, new_path: &str, exists: bool) -> (set: Result<(), FsmError>)
        ensures
            exists ==> set is Ok && final(self)@ == (ConfigView {
                watch_path: new_path@,
                ..old(self)@
            }),
            !exists ==> (set matches Err(error) && error@ == invalid_path(new_path@)),
            !exists ==> final(self)@ == old(self)@,
    {
        if !exists {
            return Err(refuse_path(new_path));
        }
        self.base_path_to_watch = String::from_str(new_path);
        Ok(())
    }

    /// Sorts into `new_path` from now on, provided that it exists; a path
    /// that does not is refused with `ConfigError` and nothing changes.
    pub fn set_manage_path(&mut self, new_path: &str, exists: bool) -> (set: Result<(), FsmError>)
        ensures
            exists ==> set is Ok && final(self)@ == (ConfigView {
                manage_path: new_path@,
                ..old(self)@
            }),
            !exists ==> (set matches Err(error) && error@ == invalid_path(new_path@)),
            !exists ==> final(self)@ == old(self)@,
    {
        if !exists {
            return Err(refuse_path(new_path));
        }
        self.base_path_to_manage = String::from_str(new_path);
        Ok(())
    }

    /// The directory that is watched.
    pub fn get_watch_path(&self) -> (path: &String)
        ensures
            path@ == self@.watch_path,
    {
        &self.base_path_to_watch
    }

    /// The directory that is sorted into.
    pub fn get_manage_path(&self) -> (path: &String)
        ensures
            path@ == self@.manage_path,
    {
        &self.base_path_to_manage
    }

    /// Whether a move may replace a file.
    pub fn perform_overwrite_on_move(&self) -> (overwrite: bool)
        ensures
            overwrite == self@.overwrite_on_move,
    {
        self.overwrite_on_move
    }
}

} // verus!
