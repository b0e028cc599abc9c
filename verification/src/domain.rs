use vstd::prelude::*;
use vstd::string::StrSliceExecFns;
use vstd::string::StringExecFns;

use crate::errors::ServiceError;
use crate::ids::{new_uuid, nil_uuid, nil_uuid_text, uuid_parses, uuid_valid};

verus! {

/// An idea's lifecycle: it is created open and moves to launched only through
/// the launch workflow.
#[derive(Clone, Copy, Debug, PartialEq, Eq, Structural)]
pub enum IdeaStatus {
    Open,
    Launched,
}

/// The numeric code the wire schema uses for an idea status; zero is the
/// schema's unspecified value, so the codes start at one.
pub open spec fn spec_wire_code(s: IdeaStatus) -> u32 {
    match s {
        IdeaStatus::Open => 1u32,
        IdeaStatus::Launched => 2u32,
    }
}

impl IdeaStatus {
    /// The numeric code the wire schema uses for this status.
    pub fn wire_code(&self) -> (c: u32)
        ensures
            c == spec_wire_code(*self),
    {
        match self {
            IdeaStatus::Open => 1,
            IdeaStatus::Launched => 2,
        }
    }

    /// The status column text for this status.
    pub fn text(&self) -> (r: String)
        ensures
            *self is Open ==> r@ == "open"@,
            *self is Launched ==> r@ == "launched"@,
    {
        match self {
            IdeaStatus::Open => String::from_str("open"),
            IdeaStatus::Launched => String::from_str("launched"),
        }
    }
}

/// An idea record: a problem and a proposed solution, tied to its creator.
#[derive(Clone, Debug)]
pub struct IdeaRecord {
    pub id: String,
    pub creator_id: String,
    pub title: String,
    pub problem: String,
    pub solution: String,
    pub status: IdeaStatus,
}

/// Build the idea record a create request persists and returns. A creator
/// reference that does not parse is recorded as the nil identifier rather
/// than rejecting the request; the record starts open under a fresh
/// identifier.
pub fn create_idea(title: &str, problem: &str, solution: &str, creator_id: &str) -> (r: IdeaRecord)
    ensures
        r.title@ == title@,
        r.problem@ == problem@,
        r.solution@ == solution@,
        r.creator_id@ == (if uuid_parses(creator_id@) {
            creator_id@
        } else {
            nil_uuid_text()
        }),
        r.status is Open,
        uuid_parses(r.id@),
{
    let creator = if uuid_valid(creator_id) {
        String::from_str(creator_id)
    } else {
        nil_uuid()
    };
    IdeaRecord {
        id: new_uuid(),
        creator_id: creator,
        title: String::from_str(title),
        problem: String::from_str(problem),
        solution: String::from_str(solution),
        status: IdeaStatus::Open,
    }
}

/// A project record. The two funding figures are kept in minor units as
/// integers; `funding_goal` is never negative, while a negative
/// `equity_offered` is the no-change sentinel of update requests and never
/// stored.
#[derive(Clone, Debug)]
pub struct ProjectRecord {
    pub id: String,
    pub owner_id: String,
    pub name: String,
    pub description: String,
    pub status: String,
    pub funding_goal: i64,
    pub equity_offered: i64,
    pub is_public: bool,
    pub industry: String,
}

/// Build the project record a create request persists and returns: active,
/// not yet public, with zeroed funding figures, under a fresh identifier. An
/// owner reference that does not parse rejects the request.
pub fn create_project(name: &str, description: &str, owner_id: &str) -> (r: Result<
    ProjectRecord,
    ServiceError,
>)
    ensures
        r is Err <==> !uuid_parses(owner_id@),
        r matches Err(e) ==> e == ServiceError::Validation,
        r matches Ok(p) ==> {
            &&& p.owner_id@ == owner_id@
            &&& p.name@ == name@
            &&& p.description@ == description@
            &&& p.status@ == "active"@
            &&& p.funding_goal == 0
            &&& p.equity_offered == 0
            &&& !p.is_public
            &&& p.industry@.len() == 0
            &&& uuid_parses(p.id@)
        },
{
    if !uuid_valid(owner_id) {
        return Err(ServiceError::Validation);
    }
    Ok(
        ProjectRecord {
            id: new_uuid(),
            owner_id: String::from_str(owner_id),
            name: String::from_str(name),
            description: String::from_str(description),
            status: String::from_str("active"),
            funding_goal: 0,
            equity_offered: 0,
            is_public: false,
            industry: String::new(),
        },
    )
}

/// A task record. `position` is a non-negative ordering key; a negative
/// position is the no-change sentinel of update requests and never stored.
#[derive(Clone, Debug)]
pub struct TaskRecord {
    pub id: String,
    pub project_id: String,
    pub title: String,
    pub description: String,
    pub priority: String,
    pub assignee_id: Option<String>,
    pub status: String,
    pub position: i64,
}

/// Build the task record a create request persists and returns: to-do, at
/// position zero, under a fresh identifier. A project reference that does not
/// parse rejects the request; an empty assignee means unassigned, and an
/// assignee that does not parse is recorded as the nil identifier.
pub fn create_task(
    project_id: &str,
    title: &str,
    description: &str,
    priority: &str,
    assignee_id: &str,
) -> (r: Result<TaskRecord, ServiceError>)
    ensures
        r is Err <==> !uuid_parses(project_id@),
        r matches Err(e) ==> e == ServiceError::Validation,
        r matches Ok(t) ==> {
            &&& t.project_id@ == project_id@
            &&& t.title@ == title@
            &&& t.description@ == description@
            &&& t.priority@ == priority@
            &&& t.status@ == "todo"@
            &&& t.position == 0
            &&& uuid_parses(t.id@)
            &&& (assignee_id@.len() == 0 ==> t.assignee_id is None)
            &&& (assignee_id@.len() > 0 && uuid_parses(assignee_id@) ==> (t.assignee_id
                matches Some(a) && a@ == assignee_id@))
            &&& (assignee_id@.len() > 0 && !uuid_parses(assignee_id@) ==> (t.assignee_id
                matches Some(a) && a@ == nil_uuid_text()))
        },
{
    if !uuid_valid(project_id) {
        return Err(ServiceError::Validation);
    }
    let assignee = if assignee_id.unicode_len() == 0 {
        None
    } else if uuid_valid(assignee_id) {
        Some(String::from_str(assignee_id))
    } else {
        Some(nil_uuid())
    };
    Ok(
        TaskRecord {
            id: new_uuid(),
            project_id: String::from_str(project_id),
            title: String::from_str(title),
            description: String::from_str(description),
            priority: String::from_str(priority),
            assignee_id: assignee,
            status: String::from_str("todo"),
            position: 0,
        },
    )
}

/// A field-by-field copy of a project record, with the copy pinned to equal
/// the original (the derived `Clone` carries no such contract).
pub fn duplicate_project(p: &ProjectRecord) -> (r: ProjectRecord)
    ensures
        r == *p,
{
    ProjectRecord {
        id: p.id.clone(),
        owner_id: p.owner_id.clone(),
        name: p.name.clone(),
        description: p.description.clone(),
        status: p.status.clone(),
        funding_goal: p.funding_goal,
        equity_offered: p.equity_offered,
        is_public: p.is_public,
        industry: p.industry.clone(),
    }
}

/// The wire form of a task's assignee: the identifier text, or empty for
/// unassigned.
pub fn assignee_text(t: &TaskRecord) -> (r: String)
    ensures
        t.assignee_id matches Some(a) ==> r@ == a@,
        t.assignee_id is None ==> r@.len() == 0,
{
    match &t.assignee_id {
        Some(a) => a.clone(),
        None => String::new(),
    }
}

/// Whether a project belongs in the public listing under an industry filter:
/// it must be public, and an empty filter admits every industry while a
/// non-empty filter admits exactly its own.
pub open spec fn spec_public_match(p: ProjectRecord, industry_filter: Seq<char>) -> bool {
    p.is_public && (industry_filter.len() == 0 || p.industry@ == industry_filter)
}

/// Decide whether one project belongs in the public listing.
pub fn public_match(p: &ProjectRecord, industry_filter: &String) -> (r: bool)
    ensures
        r == spec_public_match(*p, industry_filter@),
{
    p.is_public && (industry_filter.as_str().unicode_len() == 0 || p.industry == *industry_filter)
}

/// The public listing itself: exactly the fetched projects that belong under
/// the filter, in their stored order.
pub open spec fn spec_filter_public(
    projects: Seq<ProjectRecord>,
    industry_filter: Seq<char>,
) -> Seq<ProjectRecord> {
    projects.filter(|p: ProjectRecord| spec_public_match(p, industry_filter))
}

/// Select the projects of a listing that are visible under an industry
/// filter, keeping their order.
pub fn filter_public(projects: &Vec<ProjectRecord>, industry_filter: &String) -> (r: Vec<
    ProjectRecord,
>)
    ensures
        r@ == spec_filter_public(projects@, industry_filter@),
{
    let mut out: Vec<ProjectRecord> = Vec::new();
    let n = projects.len();
    proof {
        reveal(Seq::filter);
        assert(projects@.take(0int) =~= Seq::<ProjectRecord>::empty());
        assert(out@ =~= spec_filter_public(projects@.take(0int), industry_filter@));
    }
    for i in 0..n
        invariant
            n == projects@.len(),
            out@ =~= spec_filter_public(projects@.take(i as int), industry_filter@),
    {
        if public_match(&projects[i], industry_filter) {
            out.push(duplicate_project(&projects[i]));
        }
        proof {
            reveal(Seq::filter);
            assert(projects@.take(i + 1).drop_last() =~= projects@.take(i as int));
            assert(projects@.take(i + 1).last() == projects@[i as int]);
        }
    }
    proof {
        assert(projects@.take(n as int) =~= projects@);
    }
    out
}

/// Look a fetched project up: the store's answer decides, and a missing
/// record is the distinguished not-found error.
pub fn get_project(fetched: Option<ProjectRecord>) -> (r: Result<ProjectRecord, ServiceError>)
    ensures
        fetched matches Some(p) ==> r matches Ok(out) && out == p,
        fetched is None <==> (r matches Err(e) && e == ServiceError::NotFound),
{
    match fetched {
        Some(p) => Ok(p),
        None => Err(ServiceError::NotFound),
    }
}

/// Look a fetched task up, in the same way.
pub fn get_task(fetched: Option<TaskRecord>) -> (r: Result<TaskRecord, ServiceError>)
    ensures
        fetched matches Some(t) ==> r matches Ok(out) && out == t,
        fetched is None <==> (r matches Err(e) && e == ServiceError::NotFound),
{
    match fetched {
        Some(t) => Ok(t),
        None => Err(ServiceError::NotFound),
    }
}

/// Rebuild a project record from a storage row, whose description and
/// industry columns may be null: a missing value reads as the empty string.
pub fn project_from_row(
    id: String,
    owner_id: String,
    name: String,
    description: Option<String>,
    status: String,
    funding_goal: i64,
    equity_offered: i64,
    is_public: bool,
    industry: Option<String>,
) -> (p: ProjectRecord)
    ensures
        p.id@ == id@,
        p.owner_id@ == owner_id@,
        p.name@ == name@,
        p.description@ == (match description {
            Some(d) => d@,
            None => Seq::<char>::empty(),
        }),
        p.status@ == status@,
        p.funding_goal == funding_goal,
        p.equity_offered == equity_offered,
        p.is_public == is_public,
        p.industry@ == (match industry {
            Some(i) => i@,
            None => Seq::<char>::empty(),
        }),
{
    ProjectRecord {
        id,
        owner_id,
        name,
        description: match description {
            Some(d) => d,
            None => String::new(),
        },
        status,
        funding_goal,
        equity_offered,
        is_public,
        industry: match industry {
            Some(i) => i,
            None => String::new(),
        },
    }
}

/// Rebuild a task record from a storage row, whose description column may be
/// null: a missing description reads as the empty string.
pub fn task_from_row(
    id: String,
    project_id: String,
    title: String,
    description: Option<String>,
    status: String,
    priority: String,
    assignee_id: Option<String>,
    position: i64,
) -> (t: TaskRecord)
    ensures
        t.id@ == id@,
        t.project_id@ == project_id@,
        t.title@ == title@,
        t.description@ == (match description {
            Some(d) => d@,
            None => Seq::<char>::empty(),
        }),
        t.status@ == status@,
        t.priority@ == priority@,
        t.assignee_id == assignee_id,
        t.position == position,
{
    TaskRecord {
        id,
        project_id,
        title,
        description: match description {
            Some(d) => d,
            None => String::new(),
        },
        priority,
        assignee_id,
        status,
        position,
    }
}

/// Whether `serde_json::from_str` accepts a string as a JSON document.
pub uninterp spec fn is_json_text(s: Seq<char>) -> bool;

/// Relies on `serde_json::from_str::<serde_json::Value>`: acceptance is a
/// function of the characters alone.
#[verifier::external_body]
pub fn json_text_valid(s: &str) -> (r: bool)
    ensures
        r == is_json_text(s@),
{
    serde_json::from_str::<serde_json::Value>(s).is_ok()
}

/// A notification record. `payload` is an opaque structured document kept as
/// its JSON text; `read` starts false.
#[derive(Clone, Debug)]
pub struct NotificationRecord {
    pub id: String,
    pub user_id: String,
    pub kind: String,
    pub content: String,
    pub payload: String,
    pub read: bool,
    pub created_at: String,
}

/// Build the notification record a create request persists. A user reference
/// that does not parse rejects the request; a payload that is not JSON is
/// stored as the empty document rather than failing. `created_at` is the
/// caller's clock reading.
pub fn create_notification(
    user_id: &str,
    kind: &str,
    content: &str,
    payload_json: &str,
    created_at: &str,
) -> (r: Result<NotificationRecord, ServiceError>)
    ensures
        r is Err <==> !uuid_parses(user_id@),
        r matches Err(e) ==> e == ServiceError::Validation,
        r matches Ok(n) ==> {
            &&& n.user_id@ == user_id@
            &&& n.kind@ == kind@
            &&& n.content@ == content@
            &&& n.payload@ == (if is_json_text(payload_json@) {
                payload_json@
            } else {
                "{}"@
            })
            &&& !n.read
            &&& n.created_at@ == created_at@
            &&& uuid_parses(n.id@)
        },
{
    if !uuid_valid(user_id) {
        return Err(ServiceError::Validation);
    }
    let payload = if json_text_valid(payload_json) {
        String::from_str(payload_json)
    } else {
        String::from_str("{}")
    };
    Ok(
        NotificationRecord {
            id: new_uuid(),
            user_id: String::from_str(user_id),
            kind: String::from_str(kind),
            content: String::from_str(content),
            payload,
            read: false,
            created_at: String::from_str(created_at),
        },
    )
}

/// Look a fetched idea up: the store's answer decides, and a missing record
/// is the distinguished not-found error.
pub fn get_idea(fetched: Option<IdeaRecord>) -> (r: Result<IdeaRecord, ServiceError>)
    ensures
        fetched matches Some(i) ==> r matches Ok(out) && out == i,
        fetched is None <==> (r matches Err(e) && e == ServiceError::NotFound),
{
    match fetched {
        Some(i) => Ok(i),
        None => Err(ServiceError::NotFound),
    }
}

} // verus!
