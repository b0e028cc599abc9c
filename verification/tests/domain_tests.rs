use venture_core::domain::{
    assignee_text, create_idea, create_notification, create_project, create_task, filter_public,
    get_idea, get_project, get_task, project_from_row, task_from_row, IdeaStatus,
};
use venture_core::errors::ServiceError;
use venture_core::ids::validate_id;

const OWNER: &str = "7f3c1e0a-9f2b-4d6c-8a5e-1b2c3d4e5f60";
const NIL: &str = "00000000-0000-0000-0000-000000000000";

#[test]
fn idea_starts_open_with_its_fields() {
    let idea = create_idea("Title", "Problem", "Solution", OWNER);
    assert_eq!(idea.title, "Title");
    assert_eq!(idea.problem, "Problem");
    assert_eq!(idea.solution, "Solution");
    assert_eq!(idea.creator_id, OWNER);
    assert_eq!(idea.status, IdeaStatus::Open);
    assert!(uuid::Uuid::parse_str(&idea.id).is_ok());
    assert_eq!(idea.status.wire_code(), 1);
    assert_eq!(idea.status.text(), "open");
}

#[test]
fn idea_with_unparseable_creator_records_nil() {
    let idea = create_idea("T", "P", "S", "not-a-uuid");
    assert_eq!(idea.creator_id, NIL);
}

#[test]
fn launched_status_has_its_own_code_and_text() {
    assert_eq!(IdeaStatus::Launched.wire_code(), 2);
    assert_eq!(IdeaStatus::Launched.text(), "launched");
}

#[test]
fn project_creation_validates_the_owner() {
    let p = create_project("Name", "Desc", OWNER).expect("create");
    assert_eq!(p.owner_id, OWNER);
    assert_eq!(p.name, "Name");
    assert_eq!(p.description, "Desc");
    assert_eq!(p.status, "active");
    assert_eq!(p.funding_goal, 0);
    assert_eq!(p.equity_offered, 0);
    assert!(!p.is_public);
    assert_eq!(p.industry, "");
    assert_eq!(create_project("N", "D", "bogus").unwrap_err(), ServiceError::Validation);
}

#[test]
fn task_creation_validates_project_and_maps_assignee() {
    let t = create_task(OWNER, "T", "D", "high", "").expect("create");
    assert_eq!(t.project_id, OWNER);
    assert_eq!(t.status, "todo");
    assert_eq!(t.position, 0);
    assert_eq!(t.assignee_id, None);

    let t = create_task(OWNER, "T", "D", "low", OWNER).expect("create");
    assert_eq!(t.assignee_id.as_deref(), Some(OWNER));

    let t = create_task(OWNER, "T", "D", "low", "bogus").expect("create");
    assert_eq!(t.assignee_id.as_deref(), Some(NIL));

    assert_eq!(
        create_task("bogus", "T", "D", "low", "").unwrap_err(),
        ServiceError::Validation
    );
}

#[test]
fn public_listing_admits_by_flag_and_industry() {
    let mut p = create_project("N", "D", OWNER).expect("create");
    p.industry = "tech".to_string();
    assert!(!venture_core::domain::public_match(&p, &String::new()));
    p.is_public = true;
    assert!(venture_core::domain::public_match(&p, &String::new()));
    assert!(venture_core::domain::public_match(&p, &"tech".to_string()));
    assert!(!venture_core::domain::public_match(&p, &"food".to_string()));
}

#[test]
fn public_listing_keeps_matching_projects_in_order() {
    let mut a = create_project("A", "", OWNER).expect("create");
    a.is_public = true;
    a.industry = "tech".to_string();
    let mut b = create_project("B", "", OWNER).expect("create");
    b.industry = "tech".to_string();
    let mut c = create_project("C", "", OWNER).expect("create");
    c.is_public = true;
    c.industry = "food".to_string();
    let fetched = vec![a.clone(), b, c.clone()];

    let all_public = filter_public(&fetched, &String::new());
    assert_eq!(all_public.len(), 2);
    assert_eq!(all_public[0].name, "A");
    assert_eq!(all_public[1].name, "C");

    let tech_only = filter_public(&fetched, &"tech".to_string());
    assert_eq!(tech_only.len(), 1);
    assert_eq!(tech_only[0].id, a.id);

    assert_eq!(filter_public(&fetched, &"media".to_string()).len(), 0);
}

#[test]
fn project_and_task_lookups_distinguish_not_found() {
    let p = create_project("N", "D", OWNER).expect("create");
    let id = p.id.clone();
    assert_eq!(get_project(Some(p)).expect("lookup").id, id);
    assert_eq!(get_project(None).unwrap_err(), ServiceError::NotFound);

    let t = create_task(OWNER, "T", "D", "low", "").expect("create");
    let id = t.id.clone();
    assert_eq!(get_task(Some(t)).expect("lookup").id, id);
    assert_eq!(get_task(None).unwrap_err(), ServiceError::NotFound);
}

#[test]
fn assignee_renders_as_text_or_empty() {
    let t = create_task(OWNER, "T", "D", "low", OWNER).expect("create");
    assert_eq!(assignee_text(&t), OWNER);
    let t = create_task(OWNER, "T", "D", "low", "").expect("create");
    assert_eq!(assignee_text(&t), "");
}

#[test]
fn row_mapping_defaults_missing_columns_to_empty() {
    let p = project_from_row(
        "id".to_string(),
        "owner".to_string(),
        "name".to_string(),
        None,
        "active".to_string(),
        5,
        10,
        true,
        None,
    );
    assert_eq!(p.description, "");
    assert_eq!(p.industry, "");
    assert_eq!(p.funding_goal, 5);
    assert!(p.is_public);

    let t = task_from_row(
        "id".to_string(),
        "proj".to_string(),
        "title".to_string(),
        None,
        "todo".to_string(),
        "high".to_string(),
        None,
        3,
    );
    assert_eq!(t.description, "");
    assert_eq!(t.assignee_id, None);
    assert_eq!(t.position, 3);
}

#[test]
fn notification_keeps_json_and_replaces_non_json() {
    let n = create_notification(OWNER, "alert", "hello", "{\"k\":1}", "2024-01-01T00:00:00Z")
        .expect("create");
    assert_eq!(n.payload, "{\"k\":1}");
    assert!(!n.read);
    assert_eq!(n.kind, "alert");
    assert_eq!(n.created_at, "2024-01-01T00:00:00Z");

    let n = create_notification(OWNER, "alert", "hello", "not json", "t").expect("create");
    assert_eq!(n.payload, "{}");

    assert_eq!(
        create_notification("bogus", "a", "b", "{}", "t").unwrap_err(),
        ServiceError::Validation
    );
}

#[test]
fn idea_lookup_distinguishes_not_found() {
    let idea = create_idea("T", "P", "S", OWNER);
    let id = idea.id.clone();
    let found = get_idea(Some(idea)).expect("lookup");
    assert_eq!(found.id, id);
    assert_eq!(get_idea(None).unwrap_err(), ServiceError::NotFound);
}

#[test]
fn identifier_validation_accepts_only_uuids() {
    assert!(validate_id(OWNER).is_ok());
    assert!(validate_id(NIL).is_ok());
    assert_eq!(validate_id("").unwrap_err(), ServiceError::Validation);
    assert_eq!(validate_id("123").unwrap_err(), ServiceError::Validation);
}
