//! The narration: what the front-end is told of an engine event, in the
//! user's language.

use vstd::prelude::*;
use vstd::string::*;
use crate::callback::AsstMsgCode;
use crate::callback_types::{NarrationError, Payload, PayloadShape, SubTask};
use crate::level::{Level, LogRecord};

verus! {

/// The shape in which the payload of an event of the kind `code` is read.
pub open spec fn spec_payload_shape(code: AsstMsgCode) -> PayloadShape {
    match code {
        AsstMsgCode::ConnectionInfo => PayloadShape::ConnectionInfo,
        AsstMsgCode::TaskChainStart => PayloadShape::TaskChain,
        AsstMsgCode::TaskChainCompleted => PayloadShape::TaskChain,
        AsstMsgCode::TaskChainError => PayloadShape::TaskChain,
        AsstMsgCode::SubTaskStart => PayloadShape::SubTask,
        AsstMsgCode::SubTaskExtraInfo => PayloadShape::SubTaskExtra,
        _ => PayloadShape::Unread,
    }
}

/// The shape in which the payload of an event of the kind `code` is to be
/// read before the event is routed.
pub fn payload_shape(code: AsstMsgCode) -> (r: PayloadShape)
    ensures
        r == spec_payload_shape(code),
{
    match code {
        AsstMsgCode::ConnectionInfo => PayloadShape::ConnectionInfo,
        AsstMsgCode::TaskChainStart
        | AsstMsgCode::TaskChainCompleted
        | AsstMsgCode::TaskChainError => PayloadShape::TaskChain,
        AsstMsgCode::SubTaskStart => PayloadShape::SubTask,
        AsstMsgCode::SubTaskExtraInfo => PayloadShape::SubTaskExtra,
        _ => PayloadShape::Unread,
    }
}

/// What is said of a task chain: `prefix` and the chain's name, at the
/// severity `level`; `error` where the payload is not that of a task chain.
pub open spec fn chain_narration(
    level: Level,
    prefix: Seq<char>,
    payload: Payload,
    error: NarrationError,
) -> Result<Option<(Level, Seq<char>)>, NarrationError> {
    match payload {
        Payload::TaskChain(info) => Ok(Some((level, prefix + info.taskchain.spec_as_str()))),
        _ => Err(error),
    }
}

/// The narration table: what is said of an event of the kind `code` with
/// the payload `payload`, and at which severity. `Ok(None)` where nothing
/// is said.
pub open spec fn spec_notify(code: AsstMsgCode, payload: Payload) -> Result<
    Option<(Level, Seq<char>)>,
    NarrationError,
> {
    match code {
        AsstMsgCode::InternalError => Ok(Some((Level::Error, "内部错误"@))),
        AsstMsgCode::InitFailed => Ok(Some((Level::Error, "初始化失败"@))),
        AsstMsgCode::AllTasksCompleted => Ok(Some((Level::Info, "全部任务完成"@))),
        AsstMsgCode::TaskChainStart => chain_narration(
            Level::Info,
            "开始任务: "@,
            payload,
            NarrationError::TaskChainStart,
        ),
        AsstMsgCode::TaskChainCompleted => chain_narration(
            Level::Info,
            "任务完成: "@,
            payload,
            NarrationError::TaskChainCompleted,
        ),
        AsstMsgCode::TaskChainStopped => Ok(Some((Level::Info, "已停止"@))),
        AsstMsgCode::TaskChainError => chain_narration(
            Level::Error,
            "任务失败: "@,
            payload,
            NarrationError::TaskChainError,
        ),
        AsstMsgCode::SubTaskStart => match payload {
            Payload::SubTask(task) => match SubTask::spec_task_info(
                task.subtask@,
                task.task_view(),
            ) {
                Ok(Some(text)) => Ok(Some((Level::Info, text))),
                Ok(None) => Ok(None),
                Err(e) => Err(e),
            },
            _ => Err(NarrationError::SubTask),
        },
        AsstMsgCode::SubTaskExtraInfo => match payload {
            Payload::SubTaskExtra(extra) => match extra.spec_exact_info() {
                Ok(text) => Ok(Some((Level::Info, text))),
                Err(e) => Err(e),
            },
            _ => Err(NarrationError::SubTaskExtra),
        },
        AsstMsgCode::Unknown => Ok(Some((Level::Error, "未知错误！"@))),
        _ => Ok(None),
    }
}

/// Whether `r` is the outcome `expected` of the narration table.
pub open spec fn is_narration(
    r: Result<Option<LogRecord>, NarrationError>,
    expected: Result<Option<(Level, Seq<char>)>, NarrationError>,
) -> bool {
    match r {
        Ok(Some(record)) => expected == Ok::<Option<(Level, Seq<char>)>, NarrationError>(
            Some((record.level, record.text@)),
        ),
        Ok(None) => expected == Ok::<Option<(Level, Seq<char>)>, NarrationError>(None),
        Err(e) => expected == Err::<Option<(Level, Seq<char>)>, NarrationError>(e),
    }
}

/// A record with the text `text`.
fn say(level: Level, text: &str) -> (r: Result<Option<LogRecord>, NarrationError>)
    ensures
        r matches Ok(Some(record)) && record.level == level && record.text@ == text@,
{
    Ok(Some(LogRecord { level, text: String::from_str(text) }))
}

/// What is said of a task chain.
fn say_chain(level: Level, prefix: &str, payload: Payload, error: NarrationError) -> (r: Result<
    Option<LogRecord>,
    NarrationError,
>)
    ensures
        is_narration(r, chain_narration(level, prefix@, payload, error)),
{
    match payload {
        Payload::TaskChain(info) => {
            let mut text = String::from_str(prefix);
            text.append(info.get_task_chain_name());
            Ok(Some(LogRecord { level, text }))
        },
        _ => Err(error),
    }
}

/// What the front-end is told of an event of the kind `code` whose payload
/// was read as `payload`: at most one record, or the reason why the event
/// cannot be narrated.
pub fn notify(code: AsstMsgCode, payload: Payload) -> (r: Result<
    Option<LogRecord>,
    NarrationError,
>)
    ensures
        is_narration(r, spec_notify(code, payload)),
{
    match code {
        AsstMsgCode::InternalError => say(Level::Error, "内部错误"),
        AsstMsgCode::InitFailed => say(Level::Error, "初始化失败"),
        AsstMsgCode::AllTasksCompleted => say(Level::Info, "全部任务完成"),
        AsstMsgCode::TaskChainStart => say_chain(
            Level::Info,
            "开始任务: ",
            payload,
            NarrationError::TaskChainStart,
        ),
        AsstMsgCode::TaskChainCompleted => say_chain(
            Level::Info,
            "任务完成: ",
            payload,
            NarrationError::TaskChainCompleted,
        ),
        AsstMsgCode::TaskChainStopped => say(Level::Info, "已停止"),
        AsstMsgCode::TaskChainError => say_chain(
            Level::Error,
            "任务失败: ",
            payload,
            NarrationError::TaskChainError,
        ),
        AsstMsgCode::SubTaskStart => match payload {
            Payload::SubTask(task) => match task.get_task_info() {
                Ok(Some(text)) => say(Level::Info, text),
                Ok(None) => Ok(None),
                Err(e) => Err(e),
            },
            _ => Err(NarrationError::SubTask),
        },
        AsstMsgCode::SubTaskExtraInfo => match payload {
            Payload::SubTaskExtra(extra) => match extra.to_exact_info() {
                Ok(text) => Ok(Some(LogRecord { level: Level::Info, text })),
                Err(e) => Err(e),
            },
            _ => Err(NarrationError::SubTaskExtra),
        },
        AsstMsgCode::Unknown => say(Level::Error, "未知错误！"),
        _ => Ok(None),
    }
}

} // verus!
