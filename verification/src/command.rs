//! What the commands of the front-end decide before and after they act.

use vstd::prelude::*;
use vstd::string::*;
use crate::config::{Config, ConfigFile, ConfigType, WriteOrder};
use crate::entry::{entries_view, entry_of, lookup, upserted};
use crate::level::{Level, LogRecord};
use crate::task::Parameters;
use crate::text::str_eq;
use crate::updater::FollowUp;
use crate::version::{ResourceVersion, Versions};

verus! {

/// The severity that the command `set_log_level` is given as `name`.
pub open spec fn level_named(name: Seq<char>) -> Option<Level> {
    if name == "error"@ {
        Some(Level::Error)
    } else if name == "warn"@ {
        Some(Level::Warn)
    } else if name == "info"@ {
        Some(Level::Info)
    } else if name == "debug"@ {
        Some(Level::Debug)
    } else if name == "trace"@ {
        Some(Level::Trace)
    } else {
        None
    }
}

/// The severity that the command `set_log_level` is given as `name`;
/// `None` where `name` is none of the five names.
pub fn set_log_level(name: &str) -> (r: Option<Level>)
    ensures
        r == level_named(name@),
{
    if str_eq(name, "error") {
        Some(Level::Error)
    } else if str_eq(name, "warn") {
        Some(Level::Warn)
    } else if str_eq(name, "info") {
        Some(Level::Info)
    } else if str_eq(name, "debug") {
        Some(Level::Debug)
    } else if str_eq(name, "trace") {
        Some(Level::Trace)
    } else {
        None
    }
}

/// What becomes of a command that failed.
#[derive(Debug, Clone)]
pub struct Failure {
    /// The line that says what was being done, as information.
    pub summary: LogRecord,
    /// The whole error, for those who debug.
    pub trace: LogRecord,
    /// The short text that the front-end is given.
    pub reply: String,
}

/// What becomes of a command that failed while it did `context`, with the
/// whole error `error`: the log gets one line of information that says
/// what was being done and the whole error as debug output, and the
/// front-end gets the short text.
pub fn log_error_context(context: &str, error: &str) -> (r: Failure)
    ensures
        r.summary.level == Level::Info,
        r.summary.text@ == context@,
        r.trace.level == Level::Debug,
        r.trace.text@ == error@,
        r.reply@ == context@,
{
    Failure {
        summary: LogRecord { level: Level::Info, text: String::from_str(context) },
        trace: LogRecord { level: Level::Debug, text: String::from_str(error) },
        reply: String::from_str(context),
    }
}

/// Writes `params` into the configuration as the entry that `name`
/// names, and returns what is to be written to disk. A name that names
/// no entry is rejected: it is handed back, and the configuration stays
/// as it is.
pub fn update_config(config: &mut Config, name: &str, params: Parameters) -> (r: Result<
    WriteOrder,
    String,
>)
    requires
        old(config).wf(),
    ensures
        final(config).wf(),
        match r {
            Ok(order) => {
                &&& ConfigType::spec_from_str(name@) matches Some(kind)
                &&& order.file == kind.file()
                &&& entries_view(order.entries@) == final(config).entries_of(order.file)
                &&& final(config).entries_of(order.file) == upserted(
                    old(config).entries_of(order.file),
                    entry_of(kind.key(), params),
                )
                &&& lookup(final(config).entries_of(order.file), kind.key()) == Some(
                    entry_of(kind.key(), params),
                )
                &&& forall|other: ConfigFile|
                    other != order.file ==> final(config).entries_of(other) == old(
                        config,
                    ).entries_of(other)
            },
            Err(rejected) => {
                &&& ConfigType::spec_from_str(name@) is None
                &&& rejected@ == name@
                &&& *final(config) == *old(config)
            },
        },
{
    match ConfigType::from_str(name) {
        Ok(kind) => Ok(config.set_and_write(kind, params)),
        Err(rejected) => Err(rejected),
    }
}

/// The versions of what is installed, as the commands share them.
#[derive(Debug)]
pub struct VersionState {
    pub versions: Versions,
}

impl VersionState {
    /// The shared record of `versions`.
    pub fn new(versions: Versions) -> (r: VersionState)
        ensures
            r.versions == versions,
    {
        VersionState { versions }
    }

    /// Records what was done after an update: a client version that was
    /// written to disk is the client version from now on, a resource
    /// version that is to be kept is the resource version from now on, and
    /// where the resource version was read again, it is what `reloaded`
    /// holds, or the default record where the file does not exist.
    /// Loading the engine library anew leaves the versions as they are.
    pub fn record(&mut self, done: FollowUp, reloaded: Option<ResourceVersion>)
        ensures
            match done {
                FollowUp::PersistClientVersion(v) => {
                    &&& final(self).versions.client == v
                    &&& final(self).versions.resource == old(self).versions.resource
                },
                FollowUp::RecordResourceVersion(v) => {
                    &&& final(self).versions.resource == v
                    &&& final(self).versions.client == old(self).versions.client
                },
                FollowUp::ReloadResourceVersion => {
                    &&& final(self).versions.client == old(self).versions.client
                    &&& match reloaded {
                        Some(v) => final(self).versions.resource == v,
                        None => final(self).versions.resource.is_default(),
                    }
                },
                FollowUp::ReloadCore => *final(self) == *old(self),
            },
    {
        match done {
            FollowUp::PersistClientVersion(v) => {
                self.versions.client = v;
            },
            FollowUp::RecordResourceVersion(v) => {
                self.versions.resource = v;
            },
            FollowUp::ReloadResourceVersion => {
                self.versions.resource.reload(reloaded);
            },
            FollowUp::ReloadCore => {},
        }
    }
}

} // verus!
