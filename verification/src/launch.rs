use vstd::prelude::*;
use vstd::string::StringExecFns;

use crate::domain::{duplicate_project, IdeaRecord, ProjectRecord, TaskRecord};
use crate::errors::ServiceError;
use crate::ids::{new_uuid, uuid_parses};

verus! {

/// One storage write of the launch workflow.
#[derive(Clone, Debug)]
pub enum LaunchWrite {
    InsertProject(ProjectRecord),
    InsertTask(TaskRecord),
    MarkIdeaLaunched(String),
}

/// One ordered step of the launch workflow. A required step's failure aborts
/// the workflow and surfaces its error; a best-effort step's failure is
/// swallowed, an accepted partial outcome. Executors must not upgrade
/// best-effort steps to required — that would change observable behaviour.
#[derive(Clone, Debug)]
pub struct LaunchStep {
    pub write: LaunchWrite,
    pub required: bool,
}

/// The write plan the launch workflow commits to, in program order: the
/// project insert (required), the three seed-task inserts and the idea
/// status flip (best-effort). The workflow is deliberately not transactional
/// across its steps.
#[derive(Clone, Debug)]
pub struct LaunchPlan {
    pub project: ProjectRecord,
    pub steps: Vec<LaunchStep>,
}

/// What a seed task of the launch plan looks like: a fresh to-do task of the
/// new project, at high priority, unassigned, with the given fixed text.
pub open spec fn seed_task_ok(
    w: LaunchWrite,
    project_id: Seq<char>,
    title: Seq<char>,
    description: Seq<char>,
) -> bool {
    &&& w matches LaunchWrite::InsertTask(t)
    &&& t.project_id@ == project_id
    &&& t.title@ == title
    &&& t.description@ == description
    &&& t.status@ == "todo"@
    &&& t.priority@ == "high"@
    &&& t.assignee_id is None
    &&& t.position == 0
    &&& uuid_parses(t.id@)
}

/// What the launch workflow promises of its plan for a fetched idea: the new
/// project is active, owned by the idea's creator and carries the request's
/// three fields; the plan is five writes in order — the project insert,
/// required, then exactly three best-effort seed tasks with the fixed texts,
/// then the best-effort flip of the source idea to launched.
pub open spec fn launch_plan_ok(
    idea: IdeaRecord,
    title: Seq<char>,
    description: Seq<char>,
    industry: Seq<char>,
    plan: LaunchPlan,
) -> bool {
    &&& plan.project.owner_id@ == idea.creator_id@
    &&& plan.project.name@ == title
    &&& plan.project.description@ == description
    &&& plan.project.industry@ == industry
    &&& plan.project.status@ == "active"@
    &&& plan.project.funding_goal == 0
    &&& plan.project.equity_offered == 0
    &&& !plan.project.is_public
    &&& uuid_parses(plan.project.id@)
    &&& plan.steps@.len() == 5
    &&& (plan.steps@[0].write matches LaunchWrite::InsertProject(p) && p == plan.project)
    &&& plan.steps@[0].required
    &&& seed_task_ok(
        plan.steps@[1].write,
        plan.project.id@,
        "Market Research"@,
        "Identify target demographics and competitors."@,
    )
    &&& seed_task_ok(
        plan.steps@[2].write,
        plan.project.id@,
        "MVP Prototype"@,
        "Build the core functionality of the solution."@,
    )
    &&& seed_task_ok(
        plan.steps@[3].write,
        plan.project.id@,
        "Investor Deck"@,
        "Prepare slides for the first funding round."@,
    )
    &&& !plan.steps@[1].required
    &&& !plan.steps@[2].required
    &&& !plan.steps@[3].required
    &&& (plan.steps@[4].write matches LaunchWrite::MarkIdeaLaunched(id) && id@ == idea.id@)
    &&& !plan.steps@[4].required
}

/// Build one seed task of a freshly launched project.
fn seed_task(project_id: &String, title: &str, description: &str) -> (t: TaskRecord)
    ensures
        seed_task_ok(LaunchWrite::InsertTask(t), project_id@, title@, description@),
{
    TaskRecord {
        id: new_uuid(),
        project_id: project_id.clone(),
        title: String::from_str(title),
        description: String::from_str(description),
        priority: String::from_str("high"),
        assignee_id: None,
        status: String::from_str("todo"),
        position: 0,
    }
}

/// Launch a project from an idea. `idea` is what the store returned for the
/// request's idea identifier; a missing idea is the one fatal outcome, and an
/// idea that was fetched always yields a full plan — the project derives its
/// owner from the idea's creator, and the seed tasks and the status flip are
/// planned as best-effort steps.
pub fn launch_project(
    idea: Option<&IdeaRecord>,
    title: &str,
    description: &str,
    industry: &str,
) -> (r: Result<LaunchPlan, ServiceError>)
    ensures
        idea is None <==> (r matches Err(e) && e == ServiceError::NotFound),
        idea matches Some(i) ==> (r matches Ok(plan) && launch_plan_ok(
            *i,
            title@,
            description@,
            industry@,
            plan,
        )),
{
    let idea = match idea {
        Some(i) => i,
        None => {
            return Err(ServiceError::NotFound);
        },
    };
    let project = ProjectRecord {
        id: new_uuid(),
        owner_id: idea.creator_id.clone(),
        name: String::from_str(title),
        description: String::from_str(description),
        status: String::from_str("active"),
        funding_goal: 0,
        equity_offered: 0,
        is_public: false,
        industry: String::from_str(industry),
    };
    let mut steps: Vec<LaunchStep> = Vec::new();
    steps.push(
        LaunchStep { write: LaunchWrite::InsertProject(duplicate_project(&project)), required: true },
    );
    steps.push(
        LaunchStep {
            write: LaunchWrite::InsertTask(
                seed_task(
                    &project.id,
                    "Market Research",
                    "Identify target demographics and competitors.",
                ),
            ),
            required: false,
        },
    );
    steps.push(
        LaunchStep {
            write: LaunchWrite::InsertTask(
                seed_task(
                    &project.id,
                    "MVP Prototype",
                    "Build the core functionality of the solution.",
                ),
            ),
            required: false,
        },
    );
    steps.push(
        LaunchStep {
            write: LaunchWrite::InsertTask(
                seed_task(
                    &project.id,
                    "Investor Deck",
                    "Prepare slides for the first funding round.",
                ),
            ),
            required: false,
        },
    );
    steps.push(
        LaunchStep { write: LaunchWrite::MarkIdeaLaunched(idea.id.clone()), required: false },
    );
    Ok(LaunchPlan { project, steps })
}

} // verus!
