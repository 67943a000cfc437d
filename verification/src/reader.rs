//! The configuration as it is handed to the sorter at start-up.

use vstd::prelude::*;
use crate::filter::FileFilter;

verus! {

/// The managed directory tree: a leaf names a directory key, a branch holds
/// its subdirectories by name, in order.
#[derive(Debug)]
pub enum DirectoryEntry {
    LeafDirectory(String),
    ParentDirectory(Vec<(String, DirectoryEntry)>),
}

/// A span of time in seconds, minutes and hours; a part that is left out
/// counts as zero.
#[derive(Debug, Clone, Copy)]
pub struct TimeInterval {
    seconds: Option<u64>,
    minutes: Option<u64>,
    hours: Option<u64>,
}

/// A part of an interval, zero where it is left out.
pub open spec fn part(value: Option<u64>) -> nat {
    match value {
        Some(n) => n as nat,
        None => 0,
    }
}

/// What a `TimeInterval` holds: its three parts.
pub ghost struct TimeIntervalView {
    pub seconds: Option<u64>,
    pub minutes: Option<u64>,
    pub hours: Option<u64>,
}

impl View for TimeInterval {
    type V = TimeIntervalView;

    closed spec fn view(&self) -> TimeIntervalView {
        TimeIntervalView { seconds: self.seconds, minutes: self.minutes, hours: self.hours }
    }
}

impl TimeInterval {
    /// The length of the interval in seconds.
    pub open spec fn total(&self) -> nat {
        part(self@.seconds) + 60 * part(self@.minutes) + 3600 * part(self@.hours)
    }

    /// The interval of so many seconds, minutes and hours.
    pub fn new(seconds: u64, minutes: u64, hours: u64) -> (interval: Self)
        ensures
            interval@ == (TimeIntervalView {
                seconds: Some(seconds),
                minutes: Some(minutes),
                hours: Some(hours),
            }),
    {
        Self { seconds: Some(seconds), minutes: Some(minutes), hours: Some(hours) }
    }

    /// An interval of which only some parts are given.
    pub fn from_parts(seconds: Option<u64>, minutes: Option<u64>, hours: Option<u64>) -> (interval:
        Self)
        ensures
            interval@ == (TimeIntervalView { seconds, minutes, hours }),
    {
        Self { seconds, minutes, hours }
    }

    /// The parts of the interval: seconds, minutes, hours.
    pub fn parts(&self) -> (parts: (Option<u64>, Option<u64>, Option<u64>))
        ensures
            parts == (self@.seconds, self@.minutes, self@.hours),
    {
        (self.seconds, self.minutes, self.hours)
    }

    /// The length of the interval in seconds, where that fits 64 bits.
    pub fn total_seconds(&self) -> (seconds: Option<u64>)
        ensures
            match seconds {
                Some(n) => n == self.total(),
                None => self.total() > u64::MAX,
            },
    {
        let seconds: u128 = match self.seconds {
            Some(n) => n as u128,
            None => 0,
        };
        let minutes: u128 = match self.minutes {
            Some(n) => n as u128,
            None => 0,
        };
        let hours: u128 = match self.hours {
            Some(n) => n as u128,
            None => 0,
        };
        let total: u128 = seconds + 60 * minutes + 3600 * hours;
        if total > u64::MAX as u128 {
            None
        } else {
            Some(total as u64)
        }
    }
}

impl Default for TimeInterval {
    /// One minute: sixty seconds, no minutes, no hours.
    fn default() -> (interval: Self)
        ensures
            interval@ == (TimeIntervalView {
                seconds: Some(60u64),
                minutes: Some(0u64),
                hours: Some(0u64),
            }),
    {
        Self { seconds: Some(60), minutes: Some(0), hours: Some(0) }
    }
}

/// The configuration: where to watch, where to sort into, the managed tree,
/// the rules in their order, whether a move may replace a file, and how long
/// the sweeper rests between two sweeps.
#[derive(Debug)]
pub struct FsmConfigRepresentation {
    pub watch_path: String,
    pub managed_path: String,
    pub managed_directory_structure: DirectoryEntry,
    pub filters: Vec<FileFilter>,
    pub overwrite_on_move: bool,
    pub sweep_interval: TimeInterval,
}

} // verus!
