//! The session with the engine: in which order the engine is talked to,
//! what ends a run, and when its library may be loaded anew.

use vstd::prelude::*;
use vstd::string::*;
use crate::level::{Level, LogRecord};
use crate::settings::{AdbSettings, ExtraAdb};
use crate::task::TaskQueue;
use crate::text::{decimal, decimal_text};

verus! {

/// The name of the engine library without what the system puts before and
/// behind the name of a shared library.
pub const MAA_CORE_STEM: &'static str = "MaaCore";

/// The name of the file of the engine library on a system that puts
/// `prefix` before and `suffix` behind the name of a shared library.
pub fn core_library_name(prefix: &str, suffix: &str) -> (r: String)
    ensures
        r@ == prefix@ + MAA_CORE_STEM@ + suffix@,
{
    let mut r = String::from_str(prefix);
    r.append(MAA_CORE_STEM);
    r.append(suffix);
    r
}

/// Why a session failed.
#[derive(Debug, Clone)]
pub enum SessionError {
    /// Another session is running.
    Busy,
    /// The engine library could not be loaded.
    LoadCore(String),
    /// The resources could not be loaded.
    LoadResource(String),
    /// The engine handed out no instance.
    Create(String),
    /// The connection extras could not be set.
    SetConnectionExtras(String),
    /// The device could not be connected.
    Connect(String),
    /// A task was refused.
    AppendTask {
        /// The name of the task.
        name: String,
        /// What the engine said.
        source: String,
    },
    /// The engine did not start.
    Start(String),
    /// The stop channel broke.
    StopChannel(String),
    /// The engine could not be stopped.
    Stop(String),
    /// An event came that the stage of the session does not expect.
    Unexpected,
}

impl SessionError {
    /// What `to_text` returns.
    pub open spec fn spec_text(self) -> Seq<char> {
        match self {
            SessionError::Busy => "another session is running"@,
            SessionError::LoadCore(why) => "load core: "@ + why@,
            SessionError::LoadResource(why) => "load resource: "@ + why@,
            SessionError::Create(why) => "create instance: "@ + why@,
            SessionError::SetConnectionExtras(why) => "set connection extras: "@ + why@,
            SessionError::Connect(why) => "connect: "@ + why@,
            SessionError::AppendTask { name, source } => "append task "@ + name@ + ": "@
                + source@,
            SessionError::Start(why) => "start: "@ + why@,
            SessionError::StopChannel(why) => "stop channel: "@ + why@,
            SessionError::Stop(why) => "stop: "@ + why@,
            SessionError::Unexpected => "unexpected event"@,
        }
    }

    /// The error in words: what the session was doing, and what was said
    /// of it.
    pub fn to_text(&self) -> (r: String)
        ensures
            r@ == self.spec_text(),
    {
        match self {
            SessionError::Busy => String::from_str("another session is running"),
            SessionError::LoadCore(why) => String::from_str("load core: ").concat(why.as_str()),
            SessionError::LoadResource(why) => String::from_str("load resource: ").concat(
                why.as_str(),
            ),
            SessionError::Create(why) => String::from_str("create instance: ").concat(
                why.as_str(),
            ),
            SessionError::SetConnectionExtras(why) => String::from_str(
                "set connection extras: ",
            ).concat(why.as_str()),
            SessionError::Connect(why) => String::from_str("connect: ").concat(why.as_str()),
            SessionError::AppendTask { name, source } => String::from_str("append task ").concat(
                name.as_str(),
            ).concat(": ").concat(source.as_str()),
            SessionError::Start(why) => String::from_str("start: ").concat(why.as_str()),
            SessionError::StopChannel(why) => String::from_str("stop channel: ").concat(
                why.as_str(),
            ),
            SessionError::Stop(why) => String::from_str("stop: ").concat(why.as_str()),
            SessionError::Unexpected => String::from_str("unexpected event"),
        }
    }
}

/// What the engine library is doing for the process: whether it is
/// loaded, and whether a session runs on it.
#[derive(Debug)]
pub struct EngineLibrary {
    loaded: bool,
    session_active: bool,
}

impl EngineLibrary {
    /// Whether the library is loaded.
    pub closed spec fn spec_is_loaded(&self) -> bool {
        self.loaded
    }

    /// Whether a session runs.
    pub closed spec fn spec_is_session_active(&self) -> bool {
        self.session_active
    }

    /// The library of a process that has just started: not loaded, and
    /// without a session.
    pub fn new() -> (r: EngineLibrary)
        ensures
            !r.spec_is_loaded(),
            !r.spec_is_session_active(),
    {
        EngineLibrary { loaded: false, session_active: false }
    }

    /// Whether the library is loaded.
    #[verifier::when_used_as_spec(spec_is_loaded)]
    pub fn is_loaded(&self) -> (r: bool)
        ensures
            r == self.spec_is_loaded(),
    {
        self.loaded
    }

    /// Whether a session runs.
    #[verifier::when_used_as_spec(spec_is_session_active)]
    pub fn is_session_active(&self) -> (r: bool)
        ensures
            r == self.spec_is_session_active(),
    {
        self.session_active
    }

    /// Opens a session, unless one is running: then nothing changes and
    /// the session is refused. The result says whether the library is
    /// loaded already.
    pub fn begin_session(&mut self) -> (r: Result<bool, SessionError>)
        ensures
            match r {
                Ok(loaded) => {
                    &&& !old(self).spec_is_session_active()
                    &&& final(self).spec_is_session_active()
                    &&& loaded == old(self).spec_is_loaded()
                    &&& final(self).spec_is_loaded() == old(self).spec_is_loaded()
                },
                Err(e) => {
                    &&& old(self).spec_is_session_active()
                    &&& e is Busy
                    &&& *final(self) == *old(self)
                },
            },
    {
        if self.session_active {
            Err(SessionError::Busy)
        } else {
            self.session_active = true;
            Ok(self.loaded)
        }
    }

    /// Records that the library was loaded.
    pub fn mark_loaded(&mut self)
        ensures
            final(self).spec_is_loaded(),
            final(self).spec_is_session_active() == old(self).spec_is_session_active(),
    {
        self.loaded = true;
    }

    /// Closes the session.
    pub fn end_session(&mut self)
        ensures
            !final(self).spec_is_session_active(),
            final(self).spec_is_loaded() == old(self).spec_is_loaded(),
    {
        self.session_active = false;
    }

    /// Whether the library may be unloaded and loaded anew now: it may not
    /// while a session runs. Where it may, the library counts as not
    /// loaded until `mark_loaded` records the new load.
    pub fn reload_core(&mut self) -> (r: bool)
        ensures
            r == !old(self).spec_is_session_active(),
            final(self).spec_is_session_active() == old(self).spec_is_session_active(),
            final(self).spec_is_loaded() == (old(self).spec_is_loaded() && !r),
    {
        if self.session_active {
            false
        } else {
            self.loaded = false;
            true
        }
    }
}

/// What the engine is to be told of the emulator before it connects: the
/// tag of the emulator's kind and the extras as JSON text; `None` where
/// it is told nothing.
pub fn set_connection_extras(ex: &ExtraAdb) -> (r: Option<(String, String)>)
    ensures
        match ex {
            ExtraAdb::NoExtras => r is None,
            ExtraAdb::MuMuEmulator12(m) => r matches Some(told) && told.0@ == ex.spec_tag()
                && told.1@ == m.spec_config(),
        },
{
    match ex {
        ExtraAdb::NoExtras => None,
        ExtraAdb::MuMuEmulator12(m) => Some((String::from_str(ex.tag()), m.config())),
    }
}

/// How far a session has come.
#[derive(Debug, Clone, Copy, PartialEq, Eq, Structural)]
pub enum SessionStage {
    /// Nothing was done yet.
    Start,
    /// The engine library is being loaded.
    Library,
    /// The resources are being loaded.
    Resource,
    /// The engine is asked for an instance.
    Create,
    /// The connection extras are being set.
    Extras,
    /// The device is being connected.
    Connect,
    /// The tasks are being handed over.
    Submitting,
    /// The engine is being started.
    Starting,
    /// The engine runs; the session waits for its end or for a stop.
    Running,
    /// The engine is being stopped.
    Stopping,
    /// The session has ended.
    Finished,
}

impl SessionStage {
    /// Whether the session holds an instance of the engine at this stage.
    pub open spec fn holds_instance(self) -> bool {
        self == SessionStage::Extras || self == SessionStage::Connect || self
            == SessionStage::Submitting || self == SessionStage::Starting || self
            == SessionStage::Running || self == SessionStage::Stopping
    }
}

/// How a wait on the running engine ended.
#[derive(Debug, Clone)]
pub enum WaitOutcome {
    /// A stop was requested.
    StopRequested,
    /// The stop channel broke.
    ChannelClosed(String),
    /// The polling period passed; `running` says whether the engine still
    /// runs.
    Polled { running: bool },
}

/// What came of the last action of a session.
#[derive(Debug, Clone)]
pub enum SessionEvent {
    /// The session begins.
    Begin,
    /// The last action succeeded.
    Done,
    /// The engine took the task and gave it this identifier.
    Appended(i32),
    /// The wait ended.
    Waited(WaitOutcome),
    /// The last action failed.
    Failed(String),
}

/// What a session does next.
#[derive(Debug, Clone)]
pub enum SessionAction {
    /// Load the engine library.
    LoadLibrary,
    /// Load the resources from the directory of the program.
    LoadResource,
    /// Ask the engine for an instance that reports to the callback.
    CreateAssistant,
    /// Tell the engine of the emulator.
    SetConnectionExtras { tag: String, config: String },
    /// Connect the device, and wait until it is connected.
    Connect { adb_path: String, address: String, config: String, block: bool },
    /// Hand a task over.
    AppendTask { name: String, params: String },
    /// Start the engine.
    Start,
    /// Wait for a stop, but no longer than the polling period.
    Wait,
    /// Stop the engine.
    Stop,
    /// The session has ended well.
    Finish,
    /// The session has failed.
    Fail(SessionError),
}

/// One step of a session: a line for the log, where there is one, and
/// what the session does next.
#[derive(Debug, Clone)]
pub struct SessionStep {
    pub log: Option<LogRecord>,
    pub action: SessionAction,
}

/// The number `n` in decimal digits, with a minus sign where it is
/// negative.
pub open spec fn signed_text(n: int) -> Seq<char> {
    if n < 0 {
        "-"@ + decimal_text((-n) as nat)
    } else {
        decimal_text(n as nat)
    }
}

/// The number `n` in decimal digits.
pub fn signed(n: i32) -> (r: String)
    ensures
        r@ == signed_text(n as int),
{
    if n < 0 {
        let m: i64 = -(n as i64);
        String::from_str("-").concat(decimal(m as u64).as_str())
    } else {
        decimal(n as u64)
    }
}

/// What the log says of a task that the engine took.
pub open spec fn appended_text(name: Seq<char>, id: int) -> Seq<char> {
    "append task '"@ + name + "' (id: "@ + signed_text(id) + ")"@
}

/// What the log says of an engine that could not be stopped.
pub open spec fn stop_failed_text(why: Seq<char>) -> Seq<char> {
    "stop failed: "@ + why
}

/// The run of one session.
#[derive(Debug, Clone)]
pub struct Session {
    /// The tasks of the run, in the order in which they are handed over.
    pub tasks: TaskQueue,
    /// How the device is connected.
    pub adb: AdbSettings,
    /// Whether the engine library was loaded before the session began.
    pub library_loaded: bool,
    pub stage: SessionStage,
    /// How many tasks the engine has taken.
    pub submitted: usize,
    /// Why the session is being ended, where it is ended for a failure.
    pub failure: Option<SessionError>,
}

impl Session {
    /// Whether `action` connects the device as `adb` says, and waits.
    pub open spec fn connects(adb: AdbSettings, action: SessionAction) -> bool {
        action matches SessionAction::Connect { adb_path, address, config, block } && adb_path@
            == adb.path@ && address@ == adb.address@ && config@ == adb.extra.spec_tag() && block
    }

    /// Whether `action` hands over the task at the place `i` of `tasks`.
    pub open spec fn appends(tasks: Seq<(String, String)>, i: int, action: SessionAction) -> bool {
        action matches SessionAction::AppendTask { name, params } && name@ == tasks[i].0@
            && params@ == tasks[i].1@
    }

    /// What the session does when `submitted` tasks are handed over: it
    /// hands over the next one, or starts the engine when none is left.
    pub open spec fn submits(old: Session, submitted: int, new: Session, action: SessionAction) -> bool {
        if submitted < old.tasks.len() {
            new.stage == SessionStage::Submitting && Self::appends(old.tasks@, submitted, action)
        } else {
            new.stage == SessionStage::Starting && action is Start
        }
    }

    /// What the session does when it gives up for `why` while it holds an
    /// instance: it keeps the reason, and stops the engine first.
    pub open spec fn gives_up(new: Session, action: SessionAction, why: SessionError) -> bool {
        new.stage == SessionStage::Stopping && new.failure == Some(why) && action is Stop
    }

    /// The rule of the session: what the session `old` becomes on
    /// `event`, and what it does next.
    ///
    /// 1. It loads the engine library unless that is loaded, then the
    ///    resources, and asks for an instance. A failure so far ends it.
    /// 2. It tells the engine of the emulator where the settings name one,
    ///    and connects the device.
    /// 3. It hands the tasks over one by one in the order of the queue,
    ///    and logs the identifier of each. Then it starts the engine.
    /// 4. It waits until a stop is requested or the engine no longer runs.
    /// 5. It stops the engine and ends. A failure after the instance was
    ///    handed out leads here too, and is what the session ends with;
    ///    that the engine could not be stopped is logged, and is what the
    ///    session ends with only where nothing failed before.
    pub open spec fn steps(
        old: Session,
        event: SessionEvent,
        new: Session,
        out: SessionStep,
    ) -> bool {
        &&& new.tasks == old.tasks
        &&& new.adb == old.adb
        &&& new.library_loaded == old.library_loaded
        &&& match (old.stage, event) {
            (SessionStage::Start, SessionEvent::Begin) => {
                &&& out.log is None
                &&& new.submitted == old.submitted
                &&& new.failure == old.failure
                &&& if old.library_loaded {
                    new.stage == SessionStage::Resource && out.action is LoadResource
                } else {
                    new.stage == SessionStage::Library && out.action is LoadLibrary
                }
            },
            (SessionStage::Library, SessionEvent::Done) => {
                &&& out.log is None
                &&& new.submitted == old.submitted
                &&& new.failure == old.failure
                &&& new.stage == SessionStage::Resource
                &&& out.action is LoadResource
            },
            (SessionStage::Library, SessionEvent::Failed(why)) => {
                &&& out.log is None
                &&& new.stage == SessionStage::Finished
                &&& out.action == SessionAction::Fail(SessionError::LoadCore(why))
            },
            (SessionStage::Resource, SessionEvent::Done) => {
                &&& out.log is None
                &&& new.submitted == old.submitted
                &&& new.failure == old.failure
                &&& new.stage == SessionStage::Create
                &&& out.action is CreateAssistant
            },
            (SessionStage::Resource, SessionEvent::Failed(why)) => {
                &&& out.log is None
                &&& new.stage == SessionStage::Finished
                &&& out.action == SessionAction::Fail(SessionError::LoadResource(why))
            },
            (SessionStage::Create, SessionEvent::Done) => {
                &&& out.log is None
                &&& new.submitted == old.submitted
                &&& new.failure == old.failure
                &&& match old.adb.extra {
                    ExtraAdb::NoExtras => {
                        new.stage == SessionStage::Connect && Self::connects(old.adb, out.action)
                    },
                    ExtraAdb::MuMuEmulator12(m) => {
                        &&& new.stage == SessionStage::Extras
                        &&& out.action matches SessionAction::SetConnectionExtras { tag, config }
                        &&& tag@ == old.adb.extra.spec_tag()
                        &&& config@ == m.spec_config()
                    },
                }
            },
            (SessionStage::Create, SessionEvent::Failed(why)) => {
                &&& out.log is None
                &&& new.stage == SessionStage::Finished
                &&& out.action == SessionAction::Fail(SessionError::Create(why))
            },
            (SessionStage::Extras, SessionEvent::Done) => {
                &&& out.log is None
                &&& new.submitted == old.submitted
                &&& new.failure == old.failure
                &&& new.stage == SessionStage::Connect
                &&& Self::connects(old.adb, out.action)
            },
            (SessionStage::Extras, SessionEvent::Failed(why)) => {
                &&& out.log is None
                &&& Self::gives_up(new, out.action, SessionError::SetConnectionExtras(why))
            },
            (SessionStage::Connect, SessionEvent::Done) => {
                &&& out.log is None
                &&& new.submitted == 0
                &&& new.failure == old.failure
                &&& Self::submits(old, 0, new, out.action)
            },
            (SessionStage::Connect, SessionEvent::Failed(why)) => {
                &&& out.log is None
                &&& Self::gives_up(new, out.action, SessionError::Connect(why))
            },
            (SessionStage::Submitting, SessionEvent::Appended(id)) => {
                if old.submitted < old.tasks.len() {
                    &&& out.log matches Some(line)
                    &&& line.level == Level::Debug
                    &&& line.text@ == appended_text(old.tasks@[old.submitted as int].0@, id as int)
                    &&& new.submitted == old.submitted + 1
                    &&& new.failure == old.failure
                    &&& Self::submits(old, old.submitted + 1, new, out.action)
                } else {
                    &&& out.log is None
                    &&& Self::gives_up(new, out.action, SessionError::Unexpected)
                }
            },
            (SessionStage::Submitting, SessionEvent::Failed(why)) => {
                &&& out.log is None
                &&& new.stage == SessionStage::Stopping
                &&& out.action is Stop
                &&& if old.submitted < old.tasks.len() {
                    new.failure matches Some(SessionError::AppendTask { name, source }) && name@
                        == old.tasks@[old.submitted as int].0@ && source == why
                } else {
                    new.failure == Some(SessionError::Unexpected)
                }
            },
            (SessionStage::Starting, SessionEvent::Done) => {
                &&& out.log is None
                &&& new.submitted == old.submitted
                &&& new.failure == old.failure
                &&& new.stage == SessionStage::Running
                &&& out.action is Wait
            },
            (SessionStage::Starting, SessionEvent::Failed(why)) => {
                &&& out.log is None
                &&& Self::gives_up(new, out.action, SessionError::Start(why))
            },
            (SessionStage::Running, SessionEvent::Waited(outcome)) => {
                &&& out.log is None
                &&& new.submitted == old.submitted
                &&& match outcome {
                    WaitOutcome::StopRequested => {
                        &&& new.failure == old.failure
                        &&& new.stage == SessionStage::Stopping
                        &&& out.action is Stop
                    },
                    WaitOutcome::Polled { running } => {
                        &&& new.failure == old.failure
                        &&& if running {
                            new.stage == SessionStage::Running && out.action is Wait
                        } else {
                            new.stage == SessionStage::Stopping && out.action is Stop
                        }
                    },
                    WaitOutcome::ChannelClosed(why) => Self::gives_up(
                        new,
                        out.action,
                        SessionError::StopChannel(why),
                    ),
                }
            },
            (SessionStage::Stopping, SessionEvent::Done) => {
                &&& out.log is None
                &&& new.stage == SessionStage::Finished
                &&& match old.failure {
                    Some(why) => out.action == SessionAction::Fail(why),
                    None => out.action is Finish,
                }
            },
            (SessionStage::Stopping, SessionEvent::Failed(why)) => {
                &&& out.log matches Some(line)
                &&& line.level == Level::Error
                &&& line.text@ == stop_failed_text(why@)
                &&& new.stage == SessionStage::Finished
                &&& match old.failure {
                    Some(first) => out.action == SessionAction::Fail(first),
                    None => out.action == SessionAction::Fail(SessionError::Stop(why)),
                }
            },
            _ => {
                &&& out.log is None
                &&& if old.stage.holds_instance() && old.stage != SessionStage::Stopping {
                    Self::gives_up(new, out.action, SessionError::Unexpected)
                } else {
                    &&& new.stage == SessionStage::Finished
                    &&& out.action == SessionAction::Fail(SessionError::Unexpected)
                }
            },
        }
    }
}

impl Session {
    /// A session that hands `tasks` to the engine and connects the device
    /// as `adb_cfg` says, at its start. `library_loaded` says whether the
    /// engine library is loaded already.
    pub fn run_core(tasks: TaskQueue, adb_cfg: AdbSettings, library_loaded: bool) -> (r: Session)
        ensures
            r.tasks == tasks,
            r.adb == adb_cfg,
            r.library_loaded == library_loaded,
            r.stage == SessionStage::Start,
            r.submitted == 0,
            r.failure is None,
    {
        Session {
            tasks,
            adb: adb_cfg,
            library_loaded,
            stage: SessionStage::Start,
            submitted: 0,
            failure: None,
        }
    }

    /// Connects the device.
    fn connect(&mut self) -> (r: SessionStep)
        ensures
            final(self).tasks == old(self).tasks,
            final(self).adb == old(self).adb,
            final(self).library_loaded == old(self).library_loaded,
            final(self).submitted == old(self).submitted,
            final(self).failure == old(self).failure,
            final(self).stage == SessionStage::Connect,
            r.log is None,
            Self::connects(old(self).adb, r.action),
    {
        self.stage = SessionStage::Connect;
        SessionStep {
            log: None,
            action: SessionAction::Connect {
                adb_path: self.adb.path.clone(),
                address: self.adb.address.clone(),
                config: String::from_str(self.adb.extra.tag()),
                block: true,
            },
        }
    }

    /// Hands the next task over, or starts the engine when none is left.
    fn submit(&mut self, log: Option<LogRecord>) -> (r: SessionStep)
        ensures
            final(self).tasks == old(self).tasks,
            final(self).adb == old(self).adb,
            final(self).library_loaded == old(self).library_loaded,
            final(self).submitted == old(self).submitted,
            final(self).failure == old(self).failure,
            r.log == log,
            Self::submits(*old(self), old(self).submitted as int, *final(self), r.action),
    {
        if self.submitted < self.tasks.len() {
            self.stage = SessionStage::Submitting;
            let task = &self.tasks[self.submitted];
            SessionStep {
                log,
                action: SessionAction::AppendTask { name: task.0.clone(), params: task.1.clone() },
            }
        } else {
            self.stage = SessionStage::Starting;
            SessionStep { log, action: SessionAction::Start }
        }
    }

    /// Gives up for `why`, and stops the engine first.
    fn give_up(&mut self, why: SessionError) -> (r: SessionStep)
        ensures
            final(self).tasks == old(self).tasks,
            final(self).adb == old(self).adb,
            final(self).library_loaded == old(self).library_loaded,
            final(self).submitted == old(self).submitted,
            r.log is None,
            Self::gives_up(*final(self), r.action, why),
    {
        self.stage = SessionStage::Stopping;
        self.failure = Some(why);
        SessionStep { log: None, action: SessionAction::Stop }
    }

    /// Ends the session for `why`.
    fn end(&mut self, why: SessionError) -> (r: SessionStep)
        ensures
            final(self).tasks == old(self).tasks,
            final(self).adb == old(self).adb,
            final(self).library_loaded == old(self).library_loaded,
            final(self).stage == SessionStage::Finished,
            r.log is None,
            r.action == SessionAction::Fail(why),
    {
        self.stage = SessionStage::Finished;
        SessionStep { log: None, action: SessionAction::Fail(why) }
    }

    /// Whether the session holds an instance of the engine that is not
    /// being stopped yet.
    fn must_stop(&self) -> (r: bool)
        ensures
            r == (self.stage.holds_instance() && self.stage != SessionStage::Stopping),
    {
        match self.stage {
            SessionStage::Extras
            | SessionStage::Connect
            | SessionStage::Submitting
            | SessionStage::Starting
            | SessionStage::Running => true,
            _ => false,
        }
    }

    /// Takes the session one step further: `event` is what came of its
    /// last action, and the result says what it does next.
    pub fn step(&mut self, event: SessionEvent) -> (r: SessionStep)
        ensures
            Self::steps(*old(self), event, *final(self), r),
    {
        match (self.stage, event) {
            (SessionStage::Start, SessionEvent::Begin) => {
                if self.library_loaded {
                    self.stage = SessionStage::Resource;
                    SessionStep { log: None, action: SessionAction::LoadResource }
                } else {
                    self.stage = SessionStage::Library;
                    SessionStep { log: None, action: SessionAction::LoadLibrary }
                }
            },
            (SessionStage::Library, SessionEvent::Done) => {
                self.stage = SessionStage::Resource;
                SessionStep { log: None, action: SessionAction::LoadResource }
            },
            (SessionStage::Library, SessionEvent::Failed(why)) => self.end(
                SessionError::LoadCore(why),
            ),
            (SessionStage::Resource, SessionEvent::Done) => {
                self.stage = SessionStage::Create;
                SessionStep { log: None, action: SessionAction::CreateAssistant }
            },
            (SessionStage::Resource, SessionEvent::Failed(why)) => self.end(
                SessionError::LoadResource(why),
            ),
            (SessionStage::Create, SessionEvent::Done) => {
                match set_connection_extras(&self.adb.extra) {
                    Some(told) => {
                        self.stage = SessionStage::Extras;
                        SessionStep {
                            log: None,
                            action: SessionAction::SetConnectionExtras {
                                tag: told.0,
                                config: told.1,
                            },
                        }
                    },
                    None => self.connect(),
                }
            },
            (SessionStage::Create, SessionEvent::Failed(why)) => self.end(
                SessionError::Create(why),
            ),
            (SessionStage::Extras, SessionEvent::Done) => self.connect(),
            (SessionStage::Extras, SessionEvent::Failed(why)) => self.give_up(
                SessionError::SetConnectionExtras(why),
            ),
            (SessionStage::Connect, SessionEvent::Done) => {
                self.submitted = 0;
                self.submit(None)
            },
            (SessionStage::Connect, SessionEvent::Failed(why)) => self.give_up(
                SessionError::Connect(why),
            ),
            (SessionStage::Submitting, SessionEvent::Appended(id)) => {
                if self.submitted < self.tasks.len() {
                    let mut text = String::from_str("append task '");
                    text.append(self.tasks[self.submitted].0.as_str());
                    text.append("' (id: ");
                    text.append(signed(id).as_str());
                    text.append(")");
                    self.submitted = self.submitted + 1;
                    self.submit(Some(LogRecord { level: Level::Debug, text }))
                } else {
                    self.give_up(SessionError::Unexpected)
                }
            },
            (SessionStage::Submitting, SessionEvent::Failed(why)) => {
                if self.submitted < self.tasks.len() {
                    let name = self.tasks[self.submitted].0.clone();
                    self.give_up(SessionError::AppendTask { name, source: why })
                } else {
                    self.give_up(SessionError::Unexpected)
                }
            },
            (SessionStage::Starting, SessionEvent::Done) => {
                self.stage = SessionStage::Running;
                SessionStep { log: None, action: SessionAction::Wait }
            },
            (SessionStage::Starting, SessionEvent::Failed(why)) => self.give_up(
                SessionError::Start(why),
            ),
            (SessionStage::Running, SessionEvent::Waited(outcome)) => {
                match outcome {
                    WaitOutcome::StopRequested => {
                        self.stage = SessionStage::Stopping;
                        SessionStep { log: None, action: SessionAction::Stop }
                    },
                    WaitOutcome::Polled { running } => {
                        if running {
                            SessionStep { log: None, action: SessionAction::Wait }
                        } else {
                            self.stage = SessionStage::Stopping;
                            SessionStep { log: None, action: SessionAction::Stop }
                        }
                    },
                    WaitOutcome::ChannelClosed(why) => self.give_up(
                        SessionError::StopChannel(why),
                    ),
                }
            },
            (SessionStage::Stopping, SessionEvent::Done) => {
                self.stage = SessionStage::Finished;
                match self.failure.take() {
                    Some(why) => SessionStep { log: None, action: SessionAction::Fail(why) },
                    None => SessionStep { log: None, action: SessionAction::Finish },
                }
            },
            (SessionStage::Stopping, SessionEvent::Failed(why)) => {
                self.stage = SessionStage::Finished;
                let line = LogRecord {
                    level: Level::Error,
                    text: String::from_str("stop failed: ").concat(why.as_str()),
                };
                match self.failure.take() {
                    Some(first) => SessionStep {
                        log: Some(line),
                        action: SessionAction::Fail(first),
                    },
                    None => SessionStep {
                        log: Some(line),
                        action: SessionAction::Fail(SessionError::Stop(why)),
                    },
                }
            },
            _ => {
                if self.must_stop() {
                    self.give_up(SessionError::Unexpected)
                } else {
                    self.end(SessionError::Unexpected)
                }
            },
        }
    }
}

/// A stop that is requested while the engine runs ends the session in two
/// steps: the engine is stopped, and the session ends with what the
/// session had failed with before, or well. No task is handed over after
/// the request.
pub proof fn lemma_stop_ends_session(
    running: Session,
    stopping: Session,
    first: SessionStep,
    stopped: SessionEvent,
    ended: Session,
    second: SessionStep,
)
    requires
        running.stage == SessionStage::Running,
        Session::steps(
            running,
            SessionEvent::Waited(WaitOutcome::StopRequested),
            stopping,
            first,
        ),
        stopped is Done || stopped is Failed,
        Session::steps(stopping, stopped, ended, second),
    ensures
        first.action is Stop,
        stopping.stage == SessionStage::Stopping,
        ended.stage == SessionStage::Finished,
        second.action is Finish || second.action is Fail,
        stopped is Done && running.failure is None ==> second.action is Finish,
{
}

/// The engine is stopped before a session ends that holds an instance,
/// and it is stopped once: the session ends only from the stage in which
/// the engine is being stopped, and no step taken in that stage stops the
/// engine again.
pub proof fn lemma_stop_once_before_the_end(
    old: Session,
    event: SessionEvent,
    new: Session,
    out: SessionStep,
)
    requires
        Session::steps(old, event, new, out),
    ensures
        old.stage.holds_instance() && (out.action is Finish || out.action is Fail) ==> old.stage
            == SessionStage::Stopping,
        out.action is Stop ==> old.stage.holds_instance() && old.stage != SessionStage::Stopping
            && new.stage == SessionStage::Stopping,
        old.stage == SessionStage::Stopping ==> new.stage == SessionStage::Finished,
{
}

/// The tasks are handed over in the order of the queue: the task that is
/// handed over when the engine took a task is the next of the queue, and
/// the engine is started when it took the last.
pub proof fn lemma_tasks_in_queue_order(
    old: Session,
    id: i32,
    new: Session,
    out: SessionStep,
)
    requires
        old.stage == SessionStage::Submitting,
        old.submitted < old.tasks.len(),
        Session::steps(old, SessionEvent::Appended(id), new, out),
    ensures
        new.submitted == old.submitted + 1,
        new.submitted < old.tasks.len() ==> Session::appends(
            old.tasks@,
            new.submitted as int,
            out.action,
        ),
        new.submitted == old.tasks.len() ==> out.action is Start,
{
}

} // verus!
