//! The kinds of event that the engine reports, and their severity.

use vstd::prelude::*;
use vstd::string::*;
use crate::callback_types::{ConnectionInfoType, Payload};
use crate::level::{Level, LogRecord};
use crate::msg_handler::{notify, spec_notify};

verus! {

/// The kind of an engine event, decoded from its message code.
#[derive(Debug, Clone, Copy, PartialEq, Eq, Structural)]
pub enum AsstMsgCode {
    /// An internal error of the engine.
    InternalError,
    /// The engine could not be initialised.
    InitFailed,
    /// News of the connection to the device.
    ConnectionInfo,
    /// Every task of the queue is done.
    AllTasksCompleted,
    /// News of an asynchronous call from outside.
    AsyncCallInfo,
    /// The engine instance was destroyed.
    Destroyed,
    /// A task chain failed.
    TaskChainError,
    /// A task chain started.
    TaskChainStart,
    /// A task chain completed.
    TaskChainCompleted,
    /// More about a task chain.
    TaskChainExtraInfo,
    /// A task chain was stopped by hand.
    TaskChainStopped,
    /// An atomic task failed.
    SubTaskError,
    /// An atomic task started.
    SubTaskStart,
    /// An atomic task completed.
    SubTaskCompleted,
    /// More about an atomic task.
    SubTaskExtraInfo,
    /// An atomic task was stopped by hand.
    SubTaskStopped,
    /// A code that names no kind.
    Unknown,
}

impl Default for AsstMsgCode {
    fn default() -> (r: AsstMsgCode)
        ensures
            r == AsstMsgCode::Unknown,
    {
        AsstMsgCode::Unknown
    }
}

impl AsstMsgCode {
    /// The message code of this kind.
    pub open spec fn spec_code(self) -> int {
        match self {
            AsstMsgCode::InternalError => 0,
            AsstMsgCode::InitFailed => 1,
            AsstMsgCode::ConnectionInfo => 2,
            AsstMsgCode::AllTasksCompleted => 3,
            AsstMsgCode::AsyncCallInfo => 4,
            AsstMsgCode::Destroyed => 5,
            AsstMsgCode::TaskChainError => 10000,
            AsstMsgCode::TaskChainStart => 10001,
            AsstMsgCode::TaskChainCompleted => 10002,
            AsstMsgCode::TaskChainExtraInfo => 10003,
            AsstMsgCode::TaskChainStopped => 10004,
            AsstMsgCode::SubTaskError => 20000,
            AsstMsgCode::SubTaskStart => 20001,
            AsstMsgCode::SubTaskCompleted => 20002,
            AsstMsgCode::SubTaskExtraInfo => 20003,
            AsstMsgCode::SubTaskStopped => 20004,
            AsstMsgCode::Unknown => -1,
        }
    }

    /// The kind whose message code is `code`, if there is one.
    pub open spec fn spec_from_repr(code: int) -> Option<AsstMsgCode> {
        if code == 0 {
            Some(AsstMsgCode::InternalError)
        } else if code == 1 {
            Some(AsstMsgCode::InitFailed)
        } else if code == 2 {
            Some(AsstMsgCode::ConnectionInfo)
        } else if code == 3 {
            Some(AsstMsgCode::AllTasksCompleted)
        } else if code == 4 {
            Some(AsstMsgCode::AsyncCallInfo)
        } else if code == 5 {
            Some(AsstMsgCode::Destroyed)
        } else if code == 10000 {
            Some(AsstMsgCode::TaskChainError)
        } else if code == 10001 {
            Some(AsstMsgCode::TaskChainStart)
        } else if code == 10002 {
            Some(AsstMsgCode::TaskChainCompleted)
        } else if code == 10003 {
            Some(AsstMsgCode::TaskChainExtraInfo)
        } else if code == 10004 {
            Some(AsstMsgCode::TaskChainStopped)
        } else if code == 20000 {
            Some(AsstMsgCode::SubTaskError)
        } else if code == 20001 {
            Some(AsstMsgCode::SubTaskStart)
        } else if code == 20002 {
            Some(AsstMsgCode::SubTaskCompleted)
        } else if code == 20003 {
            Some(AsstMsgCode::SubTaskExtraInfo)
        } else if code == 20004 {
            Some(AsstMsgCode::SubTaskStopped)
        } else if code == -1 {
            Some(AsstMsgCode::Unknown)
        } else {
            None
        }
    }

    /// The kind that an event with the code `code` has: a code that names
    /// no kind is `Unknown`.
    pub open spec fn spec_from_code(code: int) -> AsstMsgCode {
        match Self::spec_from_repr(code) {
            Some(kind) => kind,
            None => AsstMsgCode::Unknown,
        }
    }

    /// The message code of this kind.
    pub fn code(&self) -> (r: i32)
        ensures
            r == self.spec_code(),
    {
        match self {
            AsstMsgCode::InternalError => 0,
            AsstMsgCode::InitFailed => 1,
            AsstMsgCode::ConnectionInfo => 2,
            AsstMsgCode::AllTasksCompleted => 3,
            AsstMsgCode::AsyncCallInfo => 4,
            AsstMsgCode::Destroyed => 5,
            AsstMsgCode::TaskChainError => 10000,
            AsstMsgCode::TaskChainStart => 10001,
            AsstMsgCode::TaskChainCompleted => 10002,
            AsstMsgCode::TaskChainExtraInfo => 10003,
            AsstMsgCode::TaskChainStopped => 10004,
            AsstMsgCode::SubTaskError => 20000,
            AsstMsgCode::SubTaskStart => 20001,
            AsstMsgCode::SubTaskCompleted => 20002,
            AsstMsgCode::SubTaskExtraInfo => 20003,
            AsstMsgCode::SubTaskStopped => 20004,
            AsstMsgCode::Unknown => -1,
        }
    }

    /// The kind whose message code is `code`; `None` where no kind has it.
    pub fn from_repr(code: i32) -> (r: Option<AsstMsgCode>)
        ensures
            r == Self::spec_from_repr(code as int),
    {
        if code == 0 {
            Some(AsstMsgCode::InternalError)
        } else if code == 1 {
            Some(AsstMsgCode::InitFailed)
        } else if code == 2 {
            Some(AsstMsgCode::ConnectionInfo)
        } else if code == 3 {
            Some(AsstMsgCode::AllTasksCompleted)
        } else if code == 4 {
            Some(AsstMsgCode::AsyncCallInfo)
        } else if code == 5 {
            Some(AsstMsgCode::Destroyed)
        } else if code == 10000 {
            Some(AsstMsgCode::TaskChainError)
        } else if code == 10001 {
            Some(AsstMsgCode::TaskChainStart)
        } else if code == 10002 {
            Some(AsstMsgCode::TaskChainCompleted)
        } else if code == 10003 {
            Some(AsstMsgCode::TaskChainExtraInfo)
        } else if code == 10004 {
            Some(AsstMsgCode::TaskChainStopped)
        } else if code == 20000 {
            Some(AsstMsgCode::SubTaskError)
        } else if code == 20001 {
            Some(AsstMsgCode::SubTaskStart)
        } else if code == 20002 {
            Some(AsstMsgCode::SubTaskCompleted)
        } else if code == 20003 {
            Some(AsstMsgCode::SubTaskExtraInfo)
        } else if code == 20004 {
            Some(AsstMsgCode::SubTaskStopped)
        } else if code == -1 {
            Some(AsstMsgCode::Unknown)
        } else {
            None
        }
    }

    /// The kind of an event with the code `code`.
    pub fn from_code(code: i32) -> (r: AsstMsgCode)
        ensures
            r == Self::spec_from_code(code as int),
    {
        match Self::from_repr(code) {
            Some(kind) => kind,
            None => AsstMsgCode::Unknown,
        }
    }

    /// The name of this kind, as it stands in a log line.
    pub open spec fn spec_name(self) -> Seq<char> {
        match self {
            AsstMsgCode::InternalError => "InternalError"@,
            AsstMsgCode::InitFailed => "InitFailed"@,
            AsstMsgCode::ConnectionInfo => "ConnectionInfo"@,
            AsstMsgCode::AllTasksCompleted => "AllTasksCompleted"@,
            AsstMsgCode::AsyncCallInfo => "AsyncCallInfo"@,
            AsstMsgCode::Destroyed => "Destroyed"@,
            AsstMsgCode::TaskChainError => "TaskChainError"@,
            AsstMsgCode::TaskChainStart => "TaskChainStart"@,
            AsstMsgCode::TaskChainCompleted => "TaskChainCompleted"@,
            AsstMsgCode::TaskChainExtraInfo => "TaskChainExtraInfo"@,
            AsstMsgCode::TaskChainStopped => "TaskChainStopped"@,
            AsstMsgCode::SubTaskError => "SubTaskError"@,
            AsstMsgCode::SubTaskStart => "SubTaskStart"@,
            AsstMsgCode::SubTaskCompleted => "SubTaskCompleted"@,
            AsstMsgCode::SubTaskExtraInfo => "SubTaskExtraInfo"@,
            AsstMsgCode::SubTaskStopped => "SubTaskStopped"@,
            AsstMsgCode::Unknown => "Unknown"@,
        }
    }

    /// The name of this kind, as it stands in a log line.
    pub fn name(&self) -> (r: &'static str)
        ensures
            r@ == self.spec_name(),
    {
        match self {
            AsstMsgCode::InternalError => "InternalError",
            AsstMsgCode::InitFailed => "InitFailed",
            AsstMsgCode::ConnectionInfo => "ConnectionInfo",
            AsstMsgCode::AllTasksCompleted => "AllTasksCompleted",
            AsstMsgCode::AsyncCallInfo => "AsyncCallInfo",
            AsstMsgCode::Destroyed => "Destroyed",
            AsstMsgCode::TaskChainError => "TaskChainError",
            AsstMsgCode::TaskChainStart => "TaskChainStart",
            AsstMsgCode::TaskChainCompleted => "TaskChainCompleted",
            AsstMsgCode::TaskChainExtraInfo => "TaskChainExtraInfo",
            AsstMsgCode::TaskChainStopped => "TaskChainStopped",
            AsstMsgCode::SubTaskError => "SubTaskError",
            AsstMsgCode::SubTaskStart => "SubTaskStart",
            AsstMsgCode::SubTaskCompleted => "SubTaskCompleted",
            AsstMsgCode::SubTaskExtraInfo => "SubTaskExtraInfo",
            AsstMsgCode::SubTaskStopped => "SubTaskStopped",
            AsstMsgCode::Unknown => "Unknown",
        }
    }

    /// Whether this kind reports that something was completed.
    pub open spec fn spec_is_finished(&self) -> bool {
        *self == AsstMsgCode::AllTasksCompleted || *self == AsstMsgCode::TaskChainCompleted
            || *self == AsstMsgCode::SubTaskCompleted
    }

    /// Whether this kind reports that something was completed: the whole
    /// queue, a task chain or an atomic task.
    #[verifier::when_used_as_spec(spec_is_finished)]
    pub fn is_finished(&self) -> (r: bool)
        ensures
            r == self.spec_is_finished(),
    {
        match self {
            AsstMsgCode::AllTasksCompleted
            | AsstMsgCode::TaskChainCompleted
            | AsstMsgCode::SubTaskCompleted => true,
            _ => false,
        }
    }

    /// Whether this kind reports a failure.
    pub open spec fn is_failure(self) -> bool {
        self == AsstMsgCode::Unknown || self == AsstMsgCode::InitFailed || self
            == AsstMsgCode::InternalError || self == AsstMsgCode::TaskChainError || self
            == AsstMsgCode::SubTaskError
    }

    /// The severity table: failures are errors, the destruction of the
    /// instance is a warning, the two kinds of technical news are debug
    /// output, and the progress of tasks is information.
    pub open spec fn spec_level(&self) -> Level {
        if self.is_failure() {
            Level::Error
        } else if *self == AsstMsgCode::Destroyed {
            Level::Warn
        } else if *self == AsstMsgCode::AsyncCallInfo || *self == AsstMsgCode::ConnectionInfo {
            Level::Debug
        } else {
            Level::Info
        }
    }

    /// The severity of an event of this kind. For `ConnectionInfo` it is
    /// the severity of a payload that says nothing more.
    #[verifier::when_used_as_spec(spec_level)]
    pub fn level(&self) -> (r: Level)
        ensures
            r == self.spec_level(),
    {
        match self {
            AsstMsgCode::Unknown
            | AsstMsgCode::InitFailed
            | AsstMsgCode::InternalError
            | AsstMsgCode::TaskChainError
            | AsstMsgCode::SubTaskError => Level::Error,
            AsstMsgCode::Destroyed => Level::Warn,
            AsstMsgCode::TaskChainStart
            | AsstMsgCode::TaskChainCompleted
            | AsstMsgCode::TaskChainStopped
            | AsstMsgCode::SubTaskStart
            | AsstMsgCode::SubTaskCompleted
            | AsstMsgCode::SubTaskStopped
            | AsstMsgCode::TaskChainExtraInfo
            | AsstMsgCode::SubTaskExtraInfo
            | AsstMsgCode::AllTasksCompleted => Level::Info,
            AsstMsgCode::AsyncCallInfo | AsstMsgCode::ConnectionInfo => Level::Debug,
        }
    }
}

/// Every kind is found again from its message code.
pub proof fn lemma_code_round_trip(kind: AsstMsgCode)
    ensures
        AsstMsgCode::spec_from_repr(kind.spec_code()) == Some(kind),
        AsstMsgCode::spec_from_code(kind.spec_code()) == kind,
{
}

/// A code decodes to a kind only if it is that kind's code, so no two
/// codes share a kind other than `Unknown`.
pub proof fn lemma_from_repr_is_exact(code: int)
    ensures
        match AsstMsgCode::spec_from_repr(code) {
            Some(kind) => kind.spec_code() == code,
            None => AsstMsgCode::spec_from_code(code) == AsstMsgCode::Unknown,
        },
{
}

/// The severity of an event of the kind `kind` with the payload
/// `payload`: that of the severity table; for a connection event that of
/// the type its payload names, or of `Others` where the payload names none.
pub open spec fn spec_severity(kind: AsstMsgCode, payload: Payload) -> Level {
    if kind == AsstMsgCode::ConnectionInfo {
        match payload {
            Payload::ConnectionInfo(info) => ConnectionInfoType::spec_of_what(
                info.what@,
            ).spec_level(),
            _ => ConnectionInfoType::Others.spec_level(),
        }
    } else {
        kind.spec_level()
    }
}

/// The severity of an event of the kind `kind` with the payload `payload`.
pub fn severity(kind: AsstMsgCode, payload: &Payload) -> (r: Level)
    ensures
        r == spec_severity(kind, *payload),
{
    match kind {
        AsstMsgCode::ConnectionInfo => match payload {
            Payload::ConnectionInfo(info) => match ConnectionInfoType::from_str(
                info.what.as_str(),
            ) {
                Some(t) => t.level(),
                None => ConnectionInfoType::Others.level(),
            },
            _ => ConnectionInfoType::Others.level(),
        },
        _ => kind.level(),
    }
}

/// The text of the record of an event: the kind's name in square brackets,
/// a space, and the payload as it came.
pub open spec fn record_text(kind: AsstMsgCode, json: Seq<char>) -> Seq<char> {
    "["@ + kind.spec_name() + "] "@ + json
}

/// A log line that starts with the kind's name in square brackets.
fn tagged(kind: AsstMsgCode, level: Level, body: &str) -> (r: LogRecord)
    ensures
        r.level == level,
        r.text@ == record_text(kind, body@),
{
    let mut text = String::from_str("[");
    text.append(kind.name());
    text.append("] ");
    text.append(body);
    LogRecord { level, text }
}

/// What becomes of one engine event.
#[derive(Debug, Clone)]
pub struct Routed {
    /// The kind of the event.
    pub kind: AsstMsgCode,
    /// The record of the event, for the log.
    pub record: LogRecord,
    /// What the front-end is told of the event, if anything.
    pub narration: Option<LogRecord>,
    /// The record of why the event could not be narrated, if it could not.
    pub failure: Option<LogRecord>,
}

/// Routes one engine event: the message code `code`, the payload `json`
/// as it came, and the payload read as `payload` in the shape that
/// `payload_shape` asks for.
///
/// Every event yields exactly one record, at the severity of
/// `spec_severity`. It yields at most one narration, that of the
/// narration table. An event that cannot be narrated yields an error
/// record in place of the narration.
pub fn route_event(code: i32, json: &str, payload: Payload) -> (r: Routed)
    ensures
        r.kind == AsstMsgCode::spec_from_code(code as int),
        r.record.level == spec_severity(r.kind, payload),
        r.record.text@ == record_text(r.kind, json@),
        match spec_notify(r.kind, payload) {
            Ok(Some(said)) => {
                &&& r.failure is None
                &&& r.narration matches Some(n)
                &&& n.level == said.0
                &&& n.text@ == said.1
            },
            Ok(None) => r.failure is None && r.narration is None,
            Err(e) => {
                &&& r.narration is None
                &&& r.failure matches Some(f)
                &&& f.level == Level::Error
                &&& f.text@ == record_text(r.kind, e.spec_message())
            },
        },
{
    let kind = AsstMsgCode::from_code(code);
    let record = tagged(kind, severity(kind, &payload), json);
    match notify(kind, payload) {
        Ok(narration) => Routed { kind, record, narration, failure: None },
        Err(e) => Routed {
            kind,
            record,
            narration: None,
            failure: Some(tagged(kind, Level::Error, e.message())),
        },
    }
}

} // verus!
