//! The classified unit of pipeline work: one file, its inferred metadata,
//! and the mathematical view the contracts speak of.

use vstd::prelude::*;

use crate::taxonomy::EtlStage;
use crate::taxonomy::SystemType;
use crate::taxonomy::TaskType;

verus! {

/// The abstract value of a `Subtask`: the same fields over `Seq<char>`.
pub ghost struct SubtaskView {
    pub path: Seq<char>,
    pub name: Seq<char>,
    pub stage: Option<EtlStage>,
    pub system_type: Option<SystemType>,
    pub entity: Option<Seq<char>>,
    pub task_type: Option<TaskType>,
    pub is_common: bool,
}

/// One classified unit of pipeline work, tied to a file under the inventory
/// root. `path` is the identity key within a root; `name` is the file stem;
/// `entity` is a free-form label, not a taxonomy member. A subtask that lives
/// directly under the root has no stage folder and is marked `is_common`.
#[derive(Debug, PartialEq, Eq)]
pub struct Subtask {
    pub path: String,
    pub name: String,
    pub stage: Option<EtlStage>,
    pub system_type: Option<SystemType>,
    pub entity: Option<String>,
    pub task_type: Option<TaskType>,
    pub is_common: bool,
}

impl View for Subtask {
    type V = SubtaskView;

    open spec fn view(&self) -> SubtaskView {
        SubtaskView {
            path: self.path@,
            name: self.name@,
            stage: self.stage,
            system_type: self.system_type,
            entity: self.entity.deep_view(),
            task_type: self.task_type,
            is_common: self.is_common,
        }
    }
}

impl DeepView for Subtask {
    type V = SubtaskView;

    open spec fn deep_view(&self) -> SubtaskView {
        self.view()
    }
}

impl Clone for Subtask {
    /// A clone carries the same abstract value.
    fn clone(&self) -> (r: Self)
        ensures
            r@ == self@,
    {
        Subtask {
            path: self.path.clone(),
            name: self.name.clone(),
            stage: self.stage,
            system_type: self.system_type,
            entity: match &self.entity {
                Some(e) => Some(e.clone()),
                None => None,
            },
            task_type: self.task_type,
            is_common: self.is_common,
        }
    }
}

} // verus!
