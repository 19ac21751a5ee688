//! What the payload of an engine event holds, kind by kind, and what the
//! narration says of it.

use vstd::prelude::*;
use vstd::string::*;
use crate::level::Level;
use crate::recruit_types::RecruitResult;
use crate::stage_types::{StageDrops, Stat};
use crate::text::{debug_list, debug_list_text, decimal, decimal_text, str_eq, views_of};

verus! {

/// The `subtask` of an event that reports a step of a task.
pub const PROCESS_TASK_NAME: &'static str = "ProcessTask";

/// What a `ConnectionInfo` event is about.
#[derive(Debug, Clone, Copy, PartialEq, Eq, Structural)]
pub enum ConnectionInfoType {
    /// Connected; the device identifier is not known yet.
    Connected,
    /// The device identifier was read.
    UuidGot,
    /// The resolution of the device is not supported.
    UnsupportedResolution,
    /// The resolution could not be read.
    ResolutionError,
    /// The resolution was read.
    ResolutionGot,
    /// The connection broke; reconnecting.
    Reconnecting,
    /// The connection broke and was made again.
    Reconnected,
    /// The connection broke for good.
    Disconnect,
    /// No screenshot could be taken.
    ScreencapFailed,
    /// The touch mode is not available.
    TouchModeNotAvailable,
    /// Anything else.
    Others,
}

impl ConnectionInfoType {
    /// The type that `what` names, if it names one.
    pub open spec fn spec_from_str(what: Seq<char>) -> Option<ConnectionInfoType> {
        if what == "Connected"@ {
            Some(ConnectionInfoType::Connected)
        } else if what == "UuidGot"@ {
            Some(ConnectionInfoType::UuidGot)
        } else if what == "UnsupportedResolution"@ {
            Some(ConnectionInfoType::UnsupportedResolution)
        } else if what == "ResolutionError"@ {
            Some(ConnectionInfoType::ResolutionError)
        } else if what == "ResolutionGot"@ {
            Some(ConnectionInfoType::ResolutionGot)
        } else if what == "Reconnecting"@ {
            Some(ConnectionInfoType::Reconnecting)
        } else if what == "Reconnected"@ {
            Some(ConnectionInfoType::Reconnected)
        } else if what == "Disconnect"@ {
            Some(ConnectionInfoType::Disconnect)
        } else if what == "ScreencapFailed"@ {
            Some(ConnectionInfoType::ScreencapFailed)
        } else if what == "TouchModeNotAvailable"@ {
            Some(ConnectionInfoType::TouchModeNotAvailable)
        } else if what == "Others"@ {
            Some(ConnectionInfoType::Others)
        } else {
            None
        }
    }

    /// The type that `what` names; `None` where it names none.
    pub fn from_str(what: &str) -> (r: Option<ConnectionInfoType>)
        ensures
            r == Self::spec_from_str(what@),
    {
        if str_eq(what, "Connected") {
            Some(ConnectionInfoType::Connected)
        } else if str_eq(what, "UuidGot") {
            Some(ConnectionInfoType::UuidGot)
        } else if str_eq(what, "UnsupportedResolution") {
            Some(ConnectionInfoType::UnsupportedResolution)
        } else if str_eq(what, "ResolutionError") {
            Some(ConnectionInfoType::ResolutionError)
        } else if str_eq(what, "ResolutionGot") {
            Some(ConnectionInfoType::ResolutionGot)
        } else if str_eq(what, "Reconnecting") {
            Some(ConnectionInfoType::Reconnecting)
        } else if str_eq(what, "Reconnected") {
            Some(ConnectionInfoType::Reconnected)
        } else if str_eq(what, "Disconnect") {
            Some(ConnectionInfoType::Disconnect)
        } else if str_eq(what, "ScreencapFailed") {
            Some(ConnectionInfoType::ScreencapFailed)
        } else if str_eq(what, "TouchModeNotAvailable") {
            Some(ConnectionInfoType::TouchModeNotAvailable)
        } else if str_eq(what, "Others") {
            Some(ConnectionInfoType::Others)
        } else {
            None
        }
    }

    /// The type of an event whose payload says `what`: a `what` that names
    /// no type is `Others`.
    pub open spec fn spec_of_what(what: Seq<char>) -> ConnectionInfoType {
        match Self::spec_from_str(what) {
            Some(t) => t,
            None => ConnectionInfoType::Others,
        }
    }

    /// The severity table of connection events: what makes the device
    /// unusable is an error, reconnecting is a warning, a connection made
    /// or lost is information, the rest is debug output.
    pub open spec fn spec_level(&self) -> Level {
        match self {
            ConnectionInfoType::UnsupportedResolution => Level::Error,
            ConnectionInfoType::ResolutionError => Level::Error,
            ConnectionInfoType::ScreencapFailed => Level::Error,
            ConnectionInfoType::TouchModeNotAvailable => Level::Error,
            ConnectionInfoType::Reconnecting => Level::Warn,
            ConnectionInfoType::Connected => Level::Info,
            ConnectionInfoType::Reconnected => Level::Info,
            ConnectionInfoType::Disconnect => Level::Info,
            ConnectionInfoType::ResolutionGot => Level::Debug,
            ConnectionInfoType::UuidGot => Level::Debug,
            ConnectionInfoType::Others => Level::Debug,
        }
    }

    /// The severity of a connection event of this type.
    #[verifier::when_used_as_spec(spec_level)]
    pub fn level(&self) -> (r: Level)
        ensures
            r == self.spec_level(),
    {
        match self {
            ConnectionInfoType::UnsupportedResolution
            | ConnectionInfoType::ResolutionError
            | ConnectionInfoType::ScreencapFailed
            | ConnectionInfoType::TouchModeNotAvailable => Level::Error,
            ConnectionInfoType::Reconnecting => Level::Warn,
            ConnectionInfoType::Connected
            | ConnectionInfoType::Reconnected
            | ConnectionInfoType::Disconnect => Level::Info,
            ConnectionInfoType::ResolutionGot
            | ConnectionInfoType::UuidGot
            | ConnectionInfoType::Others => Level::Debug,
        }
    }
}

/// The payload of a `ConnectionInfo` event.
#[derive(Debug, Clone)]
pub struct ConnectionInfo {
    /// What the event is about: the name of a `ConnectionInfoType`.
    pub what: String,
    /// Why it happened.
    pub why: Option<String>,
    /// The identifier of the device; none while the connection fails.
    pub uuid: Option<String>,
    /// The details of the event, as JSON text.
    pub details: String,
}

/// The task chains of the engine.
#[derive(Debug, Clone, Copy, PartialEq, Eq, Structural)]
pub enum TaskChainType {
    StartUp,
    CloseDown,
    Fight,
    Mall,
    Recruit,
    Infrast,
    Award,
    Roguelike,
    Copilot,
    SSSCopilot,
    Depot,
    OperBox,
    ReclamationAlgorithm,
    Custom,
    SingleStep,
    VideoRecognition,
    Debug,
}

impl TaskChainType {
    /// The task chain that the engine calls `name`, if it calls one so.
    pub open spec fn spec_from_name(name: Seq<char>) -> Option<TaskChainType> {
        if name == "StartUp"@ {
            Some(TaskChainType::StartUp)
        } else if name == "CloseDown"@ {
            Some(TaskChainType::CloseDown)
        } else if name == "Fight"@ {
            Some(TaskChainType::Fight)
        } else if name == "Mall"@ {
            Some(TaskChainType::Mall)
        } else if name == "Recruit"@ {
            Some(TaskChainType::Recruit)
        } else if name == "Infrast"@ {
            Some(TaskChainType::Infrast)
        } else if name == "Award"@ {
            Some(TaskChainType::Award)
        } else if name == "Roguelike"@ {
            Some(TaskChainType::Roguelike)
        } else if name == "Copilot"@ {
            Some(TaskChainType::Copilot)
        } else if name == "SSSCopilot"@ {
            Some(TaskChainType::SSSCopilot)
        } else if name == "Depot"@ {
            Some(TaskChainType::Depot)
        } else if name == "OperBox"@ {
            Some(TaskChainType::OperBox)
        } else if name == "ReclamationAlgorithm"@ {
            Some(TaskChainType::ReclamationAlgorithm)
        } else if name == "Custom"@ {
            Some(TaskChainType::Custom)
        } else if name == "SingleStep"@ {
            Some(TaskChainType::SingleStep)
        } else if name == "VideoRecognition"@ {
            Some(TaskChainType::VideoRecognition)
        } else if name == "Debug"@ {
            Some(TaskChainType::Debug)
        } else {
            None
        }
    }

    /// The task chain that the engine calls `name`; `None` where it calls
    /// none so.
    pub fn from_name(name: &str) -> (r: Option<TaskChainType>)
        ensures
            r == Self::spec_from_name(name@),
    {
        if str_eq(name, "StartUp") {
            Some(TaskChainType::StartUp)
        } else if str_eq(name, "CloseDown") {
            Some(TaskChainType::CloseDown)
        } else if str_eq(name, "Fight") {
            Some(TaskChainType::Fight)
        } else if str_eq(name, "Mall") {
            Some(TaskChainType::Mall)
        } else if str_eq(name, "Recruit") {
            Some(TaskChainType::Recruit)
        } else if str_eq(name, "Infrast") {
            Some(TaskChainType::Infrast)
        } else if str_eq(name, "Award") {
            Some(TaskChainType::Award)
        } else if str_eq(name, "Roguelike") {
            Some(TaskChainType::Roguelike)
        } else if str_eq(name, "Copilot") {
            Some(TaskChainType::Copilot)
        } else if str_eq(name, "SSSCopilot") {
            Some(TaskChainType::SSSCopilot)
        } else if str_eq(name, "Depot") {
            Some(TaskChainType::Depot)
        } else if str_eq(name, "OperBox") {
            Some(TaskChainType::OperBox)
        } else if str_eq(name, "ReclamationAlgorithm") {
            Some(TaskChainType::ReclamationAlgorithm)
        } else if str_eq(name, "Custom") {
            Some(TaskChainType::Custom)
        } else if str_eq(name, "SingleStep") {
            Some(TaskChainType::SingleStep)
        } else if str_eq(name, "VideoRecognition") {
            Some(TaskChainType::VideoRecognition)
        } else if str_eq(name, "Debug") {
            Some(TaskChainType::Debug)
        } else {
            None
        }
    }

    /// The name under which the narration speaks of the chain.
    pub open spec fn spec_as_str(self) -> Seq<char> {
        match self {
            TaskChainType::StartUp => "开始唤醒"@,
            TaskChainType::CloseDown => "关闭游戏"@,
            TaskChainType::Fight => "刷理智"@,
            TaskChainType::Mall => "信用点及购物"@,
            TaskChainType::Recruit => "自动公招"@,
            TaskChainType::Infrast => "基建换班"@,
            TaskChainType::Award => "领取日常奖励"@,
            TaskChainType::Roguelike => "无限刷肉鸽"@,
            TaskChainType::Copilot => "自动抄作业"@,
            TaskChainType::SSSCopilot => "自动抄保全作业"@,
            TaskChainType::Depot => "仓库识别"@,
            TaskChainType::OperBox => "干员 box 识别"@,
            TaskChainType::ReclamationAlgorithm => "生息演算"@,
            TaskChainType::Custom => "自定义任务"@,
            TaskChainType::SingleStep => "单步任务"@,
            TaskChainType::VideoRecognition => "视频识别任务"@,
            TaskChainType::Debug => "调试"@,
        }
    }

    /// The name under which the narration speaks of the chain.
    pub fn as_str(&self) -> (r: &'static str)
        ensures
            r@ == self.spec_as_str(),
    {
        match self {
            TaskChainType::StartUp => "开始唤醒",
            TaskChainType::CloseDown => "关闭游戏",
            TaskChainType::Fight => "刷理智",
            TaskChainType::Mall => "信用点及购物",
            TaskChainType::Recruit => "自动公招",
            TaskChainType::Infrast => "基建换班",
            TaskChainType::Award => "领取日常奖励",
            TaskChainType::Roguelike => "无限刷肉鸽",
            TaskChainType::Copilot => "自动抄作业",
            TaskChainType::SSSCopilot => "自动抄保全作业",
            TaskChainType::Depot => "仓库识别",
            TaskChainType::OperBox => "干员 box 识别",
            TaskChainType::ReclamationAlgorithm => "生息演算",
            TaskChainType::Custom => "自定义任务",
            TaskChainType::SingleStep => "单步任务",
            TaskChainType::VideoRecognition => "视频识别任务",
            TaskChainType::Debug => "调试",
        }
    }
}

/// The payload of an event about a task chain.
#[derive(Debug, Clone, Copy, PartialEq, Eq, Structural)]
pub struct TaskChainInfo {
    pub taskchain: TaskChainType,
}

impl TaskChainInfo {
    /// The name under which the narration speaks of the task chain.
    pub fn get_task_chain_name(&self) -> (r: &str)
        ensures
            r@ == self.taskchain.spec_as_str(),
    {
        self.taskchain.as_str()
    }
}

/// Why an event could not be narrated.
#[derive(Debug, Clone, Copy, PartialEq, Eq, Structural)]
pub enum NarrationError {
    /// A task chain started, and the payload is not that of a task chain.
    TaskChainStart,
    /// A task chain completed, and the payload is not that of a task chain.
    TaskChainCompleted,
    /// A task chain failed, and the payload is not that of a task chain.
    TaskChainError,
    /// The payload is not that of an atomic task.
    SubTask,
    /// The atomic task is a step of a task, and its details name no step.
    ProcessTask,
    /// The payload is not that of more news about an atomic task.
    SubTaskExtra,
    /// The details are not those of the drops of a stage.
    StageDrops,
    /// The details are not those of a recruitment.
    RecruitResult,
}

impl NarrationError {
    /// What the log says of this error.
    pub open spec fn spec_message(self) -> Seq<char> {
        match self {
            NarrationError::TaskChainStart => "parse task chain start"@,
            NarrationError::TaskChainCompleted => "parse task chain completed"@,
            NarrationError::TaskChainError => "parse task chain error"@,
            NarrationError::SubTask => "parse sub task"@,
            NarrationError::ProcessTask => "get sub task Chinese info"@,
            NarrationError::SubTaskExtra => "parse sub task ex"@,
            NarrationError::StageDrops => "get sub task Chinese ex info"@,
            NarrationError::RecruitResult => "get sub task Chinese ex info"@,
        }
    }

    /// What the log says of this error.
    pub fn message(&self) -> (r: &'static str)
        ensures
            r@ == self.spec_message(),
    {
        match self {
            NarrationError::TaskChainStart => "parse task chain start",
            NarrationError::TaskChainCompleted => "parse task chain completed",
            NarrationError::TaskChainError => "parse task chain error",
            NarrationError::SubTask => "parse sub task",
            NarrationError::ProcessTask => "get sub task Chinese info",
            NarrationError::SubTaskExtra => "parse sub task ex",
            NarrationError::StageDrops => "get sub task Chinese ex info",
            NarrationError::RecruitResult => "get sub task Chinese ex info",
        }
    }
}

/// The payload of an event about an atomic task.
#[derive(Debug, Clone)]
pub struct SubTask {
    /// The name of the atomic task.
    pub subtask: String,
    /// The `task` of the details, where they hold one that is a string.
    pub task: Option<String>,
}

impl SubTask {
    /// The dictionary of the steps that the narration knows.
    pub open spec fn spec_task_type_cn(task_type: Seq<char>) -> Option<Seq<char>> {
        if task_type == "StartButton2"@ {
            Some("开始战斗"@)
        } else if task_type == "MedicineConfirm"@ {
            Some("使用理智药"@)
        } else if task_type == "ExpiringMedicineConfirm"@ {
            Some("使用 48 小时内过期的理智药"@)
        } else if task_type == "StoneConfirm"@ {
            Some("碎石"@)
        } else if task_type == "RecruitRefreshConfirm"@ {
            Some("公招刷新标签"@)
        } else if task_type == "RecruitConfirm"@ {
            Some("公招确认招募"@)
        } else if task_type == "RecruitNowConfirm"@ {
            Some("公招使用加急许可"@)
        } else if task_type == "ReportToPenguinStats"@ {
            Some("汇报到企鹅数据统计"@)
        } else if task_type == "ReportToYituliu"@ {
            Some("汇报到一图流大数据"@)
        } else if task_type == "InfrastDormDoubleConfirmButton"@ {
            Some("宿舍二次确认"@)
        } else if task_type == "StartExplore"@ {
            Some("肉鸽开始探索"@)
        } else if task_type == "StageTraderInvestConfirm"@ {
            Some("肉鸽投资了源石锭"@)
        } else if task_type == "StageTraderInvestSystemFull"@ {
            Some("肉鸽投资达到了游戏上限"@)
        } else if task_type == "ExitThenAbandon"@ {
            Some("肉鸽放弃了本次探索"@)
        } else if task_type == "MissionCompletedFlag"@ {
            Some("肉鸽战斗完成"@)
        } else if task_type == "MissionFailedFlag"@ {
            Some("肉鸽战斗失败"@)
        } else if task_type == "StageTraderEnter"@ {
            Some("肉鸽关卡：诡异行商"@)
        } else if task_type == "StageSafeHouseEnter"@ {
            Some("肉鸽关卡：安全的角落"@)
        } else if task_type == "StageEncounterEnter"@ {
            Some("肉鸽关卡：不期而遇/古堡馈赠"@)
        } else if task_type == "StageCombatDpsEnter"@ {
            Some("肉鸽关卡：普通作战"@)
        } else if task_type == "StageEmergencyDps"@ {
            Some("肉鸽关卡：紧急作战"@)
        } else if task_type == "StageDreadfulFoe"@ {
            Some("肉鸽关卡：险路恶敌"@)
        } else if task_type == "StartGameTask"@ {
            Some("打开客户端"@)
        } else {
            None
        }
    }

    /// What the narration says of the step `task_type`; `None` for a step
    /// that it passes over.
    pub fn as_task_type_cn(task_type: &str) -> (r: Option<&'static str>)
        ensures
            match r {
                Some(s) => Self::spec_task_type_cn(task_type@) == Some(s@),
                None => Self::spec_task_type_cn(task_type@) is None,
            },
    {
        if str_eq(task_type, "StartButton2") {
            Some("开始战斗")
        } else if str_eq(task_type, "MedicineConfirm") {
            Some("使用理智药")
        } else if str_eq(task_type, "ExpiringMedicineConfirm") {
            Some("使用 48 小时内过期的理智药")
        } else if str_eq(task_type, "StoneConfirm") {
            Some("碎石")
        } else if str_eq(task_type, "RecruitRefreshConfirm") {
            Some("公招刷新标签")
        } else if str_eq(task_type, "RecruitConfirm") {
            Some("公招确认招募")
        } else if str_eq(task_type, "RecruitNowConfirm") {
            Some("公招使用加急许可")
        } else if str_eq(task_type, "ReportToPenguinStats") {
            Some("汇报到企鹅数据统计")
        } else if str_eq(task_type, "ReportToYituliu") {
            Some("汇报到一图流大数据")
        } else if str_eq(task_type, "InfrastDormDoubleConfirmButton") {
            Some("宿舍二次确认")
        } else if str_eq(task_type, "StartExplore") {
            Some("肉鸽开始探索")
        } else if str_eq(task_type, "StageTraderInvestConfirm") {
            Some("肉鸽投资了源石锭")
        } else if str_eq(task_type, "StageTraderInvestSystemFull") {
            Some("肉鸽投资达到了游戏上限")
        } else if str_eq(task_type, "ExitThenAbandon") {
            Some("肉鸽放弃了本次探索")
        } else if str_eq(task_type, "MissionCompletedFlag") {
            Some("肉鸽战斗完成")
        } else if str_eq(task_type, "MissionFailedFlag") {
            Some("肉鸽战斗失败")
        } else if str_eq(task_type, "StageTraderEnter") {
            Some("肉鸽关卡：诡异行商")
        } else if str_eq(task_type, "StageSafeHouseEnter") {
            Some("肉鸽关卡：安全的角落")
        } else if str_eq(task_type, "StageEncounterEnter") {
            Some("肉鸽关卡：不期而遇/古堡馈赠")
        } else if str_eq(task_type, "StageCombatDpsEnter") {
            Some("肉鸽关卡：普通作战")
        } else if str_eq(task_type, "StageEmergencyDps") {
            Some("肉鸽关卡：紧急作战")
        } else if str_eq(task_type, "StageDreadfulFoe") {
            Some("肉鸽关卡：险路恶敌")
        } else if str_eq(task_type, "StartGameTask") {
            Some("打开客户端")
        } else {
            None
        }
    }

    /// What `get_task_info` returns for an atomic task named `subtask`
    /// whose details hold the step `task`.
    pub open spec fn spec_task_info(subtask: Seq<char>, task: Option<Seq<char>>) -> Result<
        Option<Seq<char>>,
        NarrationError,
    > {
        if subtask != PROCESS_TASK_NAME@ {
            Ok(None)
        } else {
            match task {
                Some(t) => Ok(Self::spec_task_type_cn(t)),
                None => Err(NarrationError::ProcessTask),
            }
        }
    }

    /// The view of an optional string.
    pub open spec fn task_view(&self) -> Option<Seq<char>> {
        match self.task {
            Some(t) => Some(t@),
            None => None,
        }
    }

    /// What the narration says of this atomic task. Only a step of a task
    /// is narrated, and of those only the steps of the dictionary; a step
    /// of a task whose details name no step is an error.
    pub fn get_task_info(&self) -> (r: Result<Option<&'static str>, NarrationError>)
        ensures
            match r {
                Ok(Some(s)) => Self::spec_task_info(self.subtask@, self.task_view()) == Ok::<
                    Option<Seq<char>>,
                    NarrationError,
                >(Some(s@)),
                Ok(None) => Self::spec_task_info(self.subtask@, self.task_view()) == Ok::<
                    Option<Seq<char>>,
                    NarrationError,
                >(None),
                Err(e) => Self::spec_task_info(self.subtask@, self.task_view()) == Err::<
                    Option<Seq<char>>,
                    NarrationError,
                >(e),
            },
    {
        if !str_eq(self.subtask.as_str(), PROCESS_TASK_NAME) {
            return Ok(None);
        }
        match &self.task {
            Some(t) => Ok(Self::as_task_type_cn(t.as_str())),
            None => Err(NarrationError::ProcessTask),
        }
    }
}

/// The details of more news about an atomic task, read in the shape that
/// `SubTaskExtraInfo::details_shape` asks for.
#[derive(Debug, Clone)]
pub enum ExtraDetails {
    /// The drops of a stage.
    StageDrops(StageDrops),
    /// The result of a recruitment.
    RecruitResult(RecruitResult),
    /// Details that were not read, or that have not the shape asked for.
    Other,
}

/// The shape in which the details of more news are to be read.
#[derive(Debug, Clone, Copy, PartialEq, Eq, Structural)]
pub enum DetailsShape {
    StageDrops,
    RecruitResult,
    /// The narration does not read the details.
    Unread,
}

/// The payload of more news about an atomic task.
#[derive(Debug, Clone)]
pub struct SubTaskExtraInfo {
    /// What the news is about.
    pub what: String,
    pub details: ExtraDetails,
}

/// The lines of the entries `stats`, each followed by an empty line.
pub open spec fn stats_text(stats: Seq<Stat>) -> Seq<char>
    decreases stats.len(),
{
    if stats.len() == 0 {
        Seq::<char>::empty()
    } else {
        stats_text(stats.drop_last()) + stats.last().spec_text() + "\n"@
    }
}

/// What the narration says of the drops of a stage: the stage and the
/// stars it was cleared with, a heading, and the entries.
pub open spec fn drops_text(drops: StageDrops) -> Seq<char> {
    drops.stage.stage_code@ + ": "@ + decimal_text(drops.stars as nat) + "星通过\n材料掉落:\n"@
        + stats_text(drops.stats@)
}

/// What the narration says of a recruitment: the rarity that the tags
/// guarantee, and the tags.
pub open spec fn recruit_text(result: RecruitResult) -> Seq<char> {
    "公招标签（"@ + decimal_text(result.level as nat) + "星）:"@ + debug_list_text(
        views_of(result.tags@),
    ) + "\n"@
}

impl SubTaskExtraInfo {
    /// The shape in which the details of news about `what` are read.
    pub open spec fn spec_details_shape(what: Seq<char>) -> DetailsShape {
        if what == "StageDrops"@ {
            DetailsShape::StageDrops
        } else if what == "RecruitResult"@ {
            DetailsShape::RecruitResult
        } else {
            DetailsShape::Unread
        }
    }

    /// The shape in which the details of news about `what` are to be read.
    pub fn details_shape(what: &str) -> (r: DetailsShape)
        ensures
            r == Self::spec_details_shape(what@),
    {
        if str_eq(what, "StageDrops") {
            DetailsShape::StageDrops
        } else if str_eq(what, "RecruitResult") {
            DetailsShape::RecruitResult
        } else {
            DetailsShape::Unread
        }
    }

    /// What `to_drops_info` returns.
    pub open spec fn spec_drops_info(self) -> Result<Seq<char>, NarrationError> {
        match self.details {
            ExtraDetails::StageDrops(drops) => Ok(drops_text(drops)),
            _ => Err(NarrationError::StageDrops),
        }
    }

    /// What `to_recruit_info` returns.
    pub open spec fn spec_recruit_info(self) -> Result<Seq<char>, NarrationError> {
        match self.details {
            ExtraDetails::RecruitResult(result) => Ok(recruit_text(result)),
            _ => Err(NarrationError::RecruitResult),
        }
    }

    /// What `to_exact_info` returns: the text for the drops of a stage or
    /// for a recruitment, and the empty text for other news.
    pub open spec fn spec_exact_info(self) -> Result<Seq<char>, NarrationError> {
        match Self::spec_details_shape(self.what@) {
            DetailsShape::StageDrops => self.spec_drops_info(),
            DetailsShape::RecruitResult => self.spec_recruit_info(),
            DetailsShape::Unread => Ok(Seq::<char>::empty()),
        }
    }

    /// What the narration says of this news.
    pub fn to_exact_info(self) -> (r: Result<String, NarrationError>)
        ensures
            match r {
                Ok(s) => self.spec_exact_info() == Ok::<Seq<char>, NarrationError>(s@),
                Err(e) => self.spec_exact_info() == Err::<Seq<char>, NarrationError>(e),
            },
    {
        match Self::details_shape(self.what.as_str()) {
            DetailsShape::StageDrops => self.to_drops_info(),
            DetailsShape::RecruitResult => self.to_recruit_info(),
            DetailsShape::Unread => Ok(String::new()),
        }
    }

    /// What the narration says of the drops of a stage; an error where
    /// the details are not those of drops.
    pub fn to_drops_info(self) -> (r: Result<String, NarrationError>)
        ensures
            match r {
                Ok(s) => self.spec_drops_info() == Ok::<Seq<char>, NarrationError>(s@),
                Err(e) => self.spec_drops_info() == Err::<Seq<char>, NarrationError>(e),
            },
    {
        match self.details {
            ExtraDetails::StageDrops(drops) => {
                let mut s = String::from_str(drops.stage.stage_code.as_str());
                s.append(": ");
                s.append(decimal(drops.stars as u64).as_str());
                s.append("星通过\n材料掉落:\n");
                let ghost head = s@;
                let mut i: usize = 0;
                while i < drops.stats.len()
                    invariant
                        i <= drops.stats.len(),
                        s@ == head + stats_text(drops.stats@.take(i as int)),
                    decreases drops.stats.len() - i,
                {
                    let line = drops.stats[i].to_text();
                    s.append(line.as_str());
                    s.append("\n");
                    proof {
                        let next = drops.stats@.take(i + 1);
                        assert(next.drop_last() =~= drops.stats@.take(i as int));
                        assert(next.last() == drops.stats@[i as int]);
                    }
                    i += 1;
                }
                proof {
                    assert(drops.stats@.take(i as int) =~= drops.stats@);
                }
                Ok(s)
            },
            _ => Err(NarrationError::StageDrops),
        }
    }

    /// What the narration says of a recruitment; an error where the
    /// details are not those of a recruitment.
    pub fn to_recruit_info(self) -> (r: Result<String, NarrationError>)
        ensures
            match r {
                Ok(s) => self.spec_recruit_info() == Ok::<Seq<char>, NarrationError>(s@),
                Err(e) => self.spec_recruit_info() == Err::<Seq<char>, NarrationError>(e),
            },
    {
        match self.details {
            ExtraDetails::RecruitResult(result) => {
                let mut s = String::from_str("公招标签（");
                s.append(decimal(result.level as u64).as_str());
                s.append("星）:");
                s.append(debug_list(&result.tags).as_str());
                s.append("\n");
                Ok(s)
            },
            _ => Err(NarrationError::RecruitResult),
        }
    }
}

/// The shape in which the payload of an event is to be read.
#[derive(Debug, Clone, Copy, PartialEq, Eq, Structural)]
pub enum PayloadShape {
    /// Nothing is read from the payload.
    Unread,
    ConnectionInfo,
    TaskChain,
    SubTask,
    SubTaskExtra,
}

/// The payload of an event, read in the shape that its kind asks for.
#[derive(Debug, Clone)]
pub enum Payload {
    /// The payload was not read.
    Unread,
    /// The payload has not the shape that was asked for.
    Invalid,
    ConnectionInfo(ConnectionInfo),
    TaskChain(TaskChainInfo),
    SubTask(SubTask),
    SubTaskExtra(SubTaskExtraInfo),
}

} // verus!
