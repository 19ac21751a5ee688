//! The tasks that a configuration can name, and their parameters.

use vstd::prelude::*;
use vstd::string::*;
use crate::text::str_eq;

verus! {

/// The tasks of one run, in the order in which the engine is handed them:
/// each with its name and its parameters as JSON text.
pub type TaskQueue = Vec<(String, String)>;

/// The tasks of the daily routine.
#[derive(Debug, Clone, Copy, PartialEq, Eq, Structural)]
pub enum DailyTaskType {
    StartUp,
    CloseDown,
    Fight,
    Recruit,
    Infrast,
    Mall,
    Award,
    Roguelike,
    Reclamation,
}

/// The tasks that are run on their own.
#[derive(Debug, Clone, Copy, PartialEq, Eq, Structural)]
pub enum ExtraTaskType {
    Custom,
    Copilot,
    SSSCopilot,
    Depot,
    OperBox,
    SingleStep,
    VideoRecognition,
}

/// A task: an entry of the configuration and a task name for the engine.
#[derive(Debug, Clone, PartialEq, Eq)]
pub enum TaskType {
    Daily(DailyTaskType),
    Extra(ExtraTaskType),
    /// A task that the user named.
    Custom(String),
}

/// What a `TaskType` holds, as mathematics.
pub enum TaskTypeView {
    Daily(DailyTaskType),
    Extra(ExtraTaskType),
    Custom(Seq<char>),
}

impl View for TaskType {
    type V = TaskTypeView;

    open spec fn view(&self) -> TaskTypeView {
        match self {
            TaskType::Daily(t) => TaskTypeView::Daily(*t),
            TaskType::Extra(t) => TaskTypeView::Extra(*t),
            TaskType::Custom(s) => TaskTypeView::Custom(s@),
        }
    }
}

impl DailyTaskType {
    /// The name that the engine knows the task by.
    pub open spec fn spec_name(self) -> Seq<char> {
        match self {
            DailyTaskType::StartUp => "StartUp"@,
            DailyTaskType::CloseDown => "CloseDown"@,
            DailyTaskType::Fight => "Fight"@,
            DailyTaskType::Recruit => "Recruit"@,
            DailyTaskType::Infrast => "Infrast"@,
            DailyTaskType::Mall => "Mall"@,
            DailyTaskType::Award => "Award"@,
            DailyTaskType::Roguelike => "Roguelike"@,
            DailyTaskType::Reclamation => "Reclamation"@,
        }
    }

    /// The name that the engine knows the task by.
    pub fn name(&self) -> (r: &'static str)
        ensures
            r@ == self.spec_name(),
    {
        match self {
            DailyTaskType::StartUp => "StartUp",
            DailyTaskType::CloseDown => "CloseDown",
            DailyTaskType::Fight => "Fight",
            DailyTaskType::Recruit => "Recruit",
            DailyTaskType::Infrast => "Infrast",
            DailyTaskType::Mall => "Mall",
            DailyTaskType::Award => "Award",
            DailyTaskType::Roguelike => "Roguelike",
            DailyTaskType::Reclamation => "Reclamation",
        }
    }

    /// The daily task named `s`, if there is one.
    pub open spec fn spec_from_str(s: Seq<char>) -> Option<DailyTaskType> {
        if s == "StartUp"@ {
            Some(DailyTaskType::StartUp)
        } else if s == "CloseDown"@ {
            Some(DailyTaskType::CloseDown)
        } else if s == "Fight"@ {
            Some(DailyTaskType::Fight)
        } else if s == "Recruit"@ {
            Some(DailyTaskType::Recruit)
        } else if s == "Infrast"@ {
            Some(DailyTaskType::Infrast)
        } else if s == "Mall"@ {
            Some(DailyTaskType::Mall)
        } else if s == "Award"@ {
            Some(DailyTaskType::Award)
        } else if s == "Roguelike"@ {
            Some(DailyTaskType::Roguelike)
        } else if s == "Reclamation"@ {
            Some(DailyTaskType::Reclamation)
        } else {
            None
        }
    }

    /// The daily task named `s`; `None` where there is none.
    pub fn from_str(s: &str) -> (r: Option<DailyTaskType>)
        ensures
            r == Self::spec_from_str(s@),
    {
        if str_eq(s, "StartUp") {
            Some(DailyTaskType::StartUp)
        } else if str_eq(s, "CloseDown") {
            Some(DailyTaskType::CloseDown)
        } else if str_eq(s, "Fight") {
            Some(DailyTaskType::Fight)
        } else if str_eq(s, "Recruit") {
            Some(DailyTaskType::Recruit)
        } else if str_eq(s, "Infrast") {
            Some(DailyTaskType::Infrast)
        } else if str_eq(s, "Mall") {
            Some(DailyTaskType::Mall)
        } else if str_eq(s, "Award") {
            Some(DailyTaskType::Award)
        } else if str_eq(s, "Roguelike") {
            Some(DailyTaskType::Roguelike)
        } else if str_eq(s, "Reclamation") {
            Some(DailyTaskType::Reclamation)
        } else {
            None
        }
    }
}

impl ExtraTaskType {
    /// The name that the engine knows the task by.
    pub open spec fn spec_name(self) -> Seq<char> {
        match self {
            ExtraTaskType::Custom => "Custom"@,
            ExtraTaskType::Copilot => "Copilot"@,
            ExtraTaskType::SSSCopilot => "SSSCopilot"@,
            ExtraTaskType::Depot => "Depot"@,
            ExtraTaskType::OperBox => "OperBox"@,
            ExtraTaskType::SingleStep => "SingleStep"@,
            ExtraTaskType::VideoRecognition => "VideoRecognition"@,
        }
    }

    /// The name that the engine knows the task by.
    pub fn name(&self) -> (r: &'static str)
        ensures
            r@ == self.spec_name(),
    {
        match self {
            ExtraTaskType::Custom => "Custom",
            ExtraTaskType::Copilot => "Copilot",
            ExtraTaskType::SSSCopilot => "SSSCopilot",
            ExtraTaskType::Depot => "Depot",
            ExtraTaskType::OperBox => "OperBox",
            ExtraTaskType::SingleStep => "SingleStep",
            ExtraTaskType::VideoRecognition => "VideoRecognition",
        }
    }

    /// The extra task named `s`, if there is one.
    pub open spec fn spec_from_str(s: Seq<char>) -> Option<ExtraTaskType> {
        if s == "Custom"@ {
            Some(ExtraTaskType::Custom)
        } else if s == "Copilot"@ {
            Some(ExtraTaskType::Copilot)
        } else if s == "SSSCopilot"@ {
            Some(ExtraTaskType::SSSCopilot)
        } else if s == "Depot"@ {
            Some(ExtraTaskType::Depot)
        } else if s == "OperBox"@ {
            Some(ExtraTaskType::OperBox)
        } else if s == "SingleStep"@ {
            Some(ExtraTaskType::SingleStep)
        } else if s == "VideoRecognition"@ {
            Some(ExtraTaskType::VideoRecognition)
        } else {
            None
        }
    }

    /// The extra task named `s`; `None` where there is none.
    pub fn from_str(s: &str) -> (r: Option<ExtraTaskType>)
        ensures
            r == Self::spec_from_str(s@),
    {
        if str_eq(s, "Custom") {
            Some(ExtraTaskType::Custom)
        } else if str_eq(s, "Copilot") {
            Some(ExtraTaskType::Copilot)
        } else if str_eq(s, "SSSCopilot") {
            Some(ExtraTaskType::SSSCopilot)
        } else if str_eq(s, "Depot") {
            Some(ExtraTaskType::Depot)
        } else if str_eq(s, "OperBox") {
            Some(ExtraTaskType::OperBox)
        } else if str_eq(s, "SingleStep") {
            Some(ExtraTaskType::SingleStep)
        } else if str_eq(s, "VideoRecognition") {
            Some(ExtraTaskType::VideoRecognition)
        } else {
            None
        }
    }
}

impl TaskType {
    /// The known task named `s`: a daily task first, then an extra task.
    pub open spec fn spec_known(s: Seq<char>) -> Option<TaskTypeView> {
        match DailyTaskType::spec_from_str(s) {
            Some(t) => Some(TaskTypeView::Daily(t)),
            None => match ExtraTaskType::spec_from_str(s) {
                Some(t) => Some(TaskTypeView::Extra(t)),
                None => None,
            },
        }
    }

    /// The task named `s`: a known task, or else the user's task `s`.
    pub open spec fn spec_from_str(s: Seq<char>) -> TaskTypeView {
        match Self::spec_known(s) {
            Some(t) => t,
            None => TaskTypeView::Custom(s),
        }
    }

    /// The known task named `s`: a daily task first, then an extra task;
    /// `None` where `s` names neither.
    pub fn known(s: &str) -> (r: Option<TaskType>)
        ensures
            match r {
                Some(t) => Self::spec_known(s@) == Some(t@),
                None => Self::spec_known(s@) is None,
            },
    {
        match DailyTaskType::from_str(s) {
            Some(t) => Some(TaskType::Daily(t)),
            None => match ExtraTaskType::from_str(s) {
                Some(t) => Some(TaskType::Extra(t)),
                None => None,
            },
        }
    }

    /// The task named `s`. Every name is one: what names no known task
    /// names a task of the user.
    pub fn from_str(s: &str) -> (r: TaskType)
        ensures
            r@ == Self::spec_from_str(s@),
    {
        match Self::known(s) {
            Some(t) => t,
            None => TaskType::Custom(String::from_str(s)),
        }
    }
}

/// The parameters of a task, as the front-end hands them over.
#[derive(Debug, Clone, Default)]
pub struct Parameters {
    /// Whether the task is part of the run.
    pub enable: bool,
    /// The `index` among the further fields, where it is an integer: the
    /// place of the task in the run.
    pub index: Option<i64>,
    /// The whole object, `enable` and the further fields, as JSON text.
    pub json: String,
}

} // verus!
