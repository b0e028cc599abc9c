use vstd::prelude::*;
use vstd::string::StrSliceExecFns;

use crate::domain::{ProjectRecord, TaskRecord};

verus! {

/// A partial-update request for a project. A field is "supplied", and
/// written, only when it differs from its type's absent sentinel: a string
/// when non-empty; `funding_goal` when strictly positive; `equity_offered`
/// when non-negative (its sentinel is negative); `is_public` always — a
/// boolean has no absent state, so every update overwrites it.
#[derive(Clone, Debug)]
pub struct ProjectUpdate {
    pub description: String,
    pub funding_goal: i64,
    pub equity_offered: i64,
    pub is_public: bool,
    pub industry: String,
}

/// The stored project state after an update: each supplied field is
/// overwritten, every other field keeps its current value. The identifier,
/// owner, name and status are never touched by an update.
pub open spec fn spec_apply_project_update(p: ProjectRecord, u: ProjectUpdate) -> ProjectRecord {
    ProjectRecord {
        id: p.id,
        owner_id: p.owner_id,
        name: p.name,
        status: p.status,
        description: if u.description@.len() > 0 {
            u.description
        } else {
            p.description
        },
        funding_goal: if u.funding_goal > 0 {
            u.funding_goal
        } else {
            p.funding_goal
        },
        equity_offered: if u.equity_offered >= 0 {
            u.equity_offered
        } else {
            p.equity_offered
        },
        is_public: u.is_public,
        industry: if u.industry@.len() > 0 {
            u.industry
        } else {
            p.industry
        },
    }
}

/// Apply a partial update to the current stored state of a project.
pub fn update_project(current: &ProjectRecord, u: &ProjectUpdate) -> (r: ProjectRecord)
    ensures
        r == spec_apply_project_update(*current, *u),
{
    ProjectRecord {
        id: current.id.clone(),
        owner_id: current.owner_id.clone(),
        name: current.name.clone(),
        status: current.status.clone(),
        description: if u.description.as_str().unicode_len() > 0 {
            u.description.clone()
        } else {
            current.description.clone()
        },
        funding_goal: if u.funding_goal > 0 {
            u.funding_goal
        } else {
            current.funding_goal
        },
        equity_offered: if u.equity_offered >= 0 {
            u.equity_offered
        } else {
            current.equity_offered
        },
        is_public: u.is_public,
        industry: if u.industry.as_str().unicode_len() > 0 {
            u.industry.clone()
        } else {
            current.industry.clone()
        },
    }
}

/// A partial-update request for a task: status and priority when non-empty,
/// position when non-negative (negative is the no-change sentinel).
#[derive(Clone, Debug)]
pub struct TaskUpdate {
    pub status: String,
    pub priority: String,
    pub position: i64,
}

/// The stored task state after an update: each supplied field is overwritten,
/// every other field keeps its current value.
pub open spec fn spec_apply_task_update(t: TaskRecord, u: TaskUpdate) -> TaskRecord {
    TaskRecord {
        id: t.id,
        project_id: t.project_id,
        title: t.title,
        description: t.description,
        assignee_id: t.assignee_id,
        status: if u.status@.len() > 0 {
            u.status
        } else {
            t.status
        },
        priority: if u.priority@.len() > 0 {
            u.priority
        } else {
            t.priority
        },
        position: if u.position >= 0 {
            u.position
        } else {
            t.position
        },
    }
}

/// Apply a partial update to the current stored state of a task.
pub fn update_task(current: &TaskRecord, u: &TaskUpdate) -> (r: TaskRecord)
    ensures
        r == spec_apply_task_update(*current, *u),
{
    TaskRecord {
        id: current.id.clone(),
        project_id: current.project_id.clone(),
        title: current.title.clone(),
        description: current.description.clone(),
        assignee_id: match &current.assignee_id {
            Some(a) => Some(a.clone()),
            None => None,
        },
        status: if u.status.as_str().unicode_len() > 0 {
            u.status.clone()
        } else {
            current.status.clone()
        },
        priority: if u.priority.as_str().unicode_len() > 0 {
            u.priority.clone()
        } else {
            current.priority.clone()
        },
        position: if u.position >= 0 {
            u.position
        } else {
            current.position
        },
    }
}

/// Law: project updates are idempotent — applying the same update twice
/// leaves exactly the state one application leaves, since every supplied
/// field is overwritten with the same value and every other field is kept. In
/// particular, an update whose only supplied field is `is_public` changes
/// nothing but `is_public`, however often it is repeated.
pub proof fn lemma_project_update_idempotent(p: ProjectRecord, u: ProjectUpdate)
    ensures
        spec_apply_project_update(spec_apply_project_update(p, u), u) == spec_apply_project_update(
            p,
            u,
        ),
{
}

/// Law: task updates are idempotent in the same way.
pub proof fn lemma_task_update_idempotent(t: TaskRecord, u: TaskUpdate)
    ensures
        spec_apply_task_update(spec_apply_task_update(t, u), u) == spec_apply_task_update(t, u),
{
}

} // verus!
