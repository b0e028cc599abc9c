use venture_core::domain::{create_project, create_task};
use venture_core::updates::{update_project, update_task, ProjectUpdate, TaskUpdate};

const OWNER: &str = "7f3c1e0a-9f2b-4d6c-8a5e-1b2c3d4e5f60";

#[test]
fn project_update_writes_only_supplied_fields() {
    let p = create_project("Name", "Desc", OWNER).expect("create");
    let u = ProjectUpdate {
        description: "new description".to_string(),
        funding_goal: 1000,
        equity_offered: -1,
        is_public: true,
        industry: String::new(),
    };
    let after = update_project(&p, &u);
    assert_eq!(after.description, "new description");
    assert_eq!(after.funding_goal, 1000);
    assert_eq!(after.equity_offered, 0);
    assert!(after.is_public);
    assert_eq!(after.industry, "");
    assert_eq!(after.id, p.id);
    assert_eq!(after.owner_id, p.owner_id);
    assert_eq!(after.name, "Name");
    assert_eq!(after.status, "active");
}

#[test]
fn project_update_with_only_is_public_changes_only_is_public() {
    let mut p = create_project("Name", "Desc", OWNER).expect("create");
    p.funding_goal = 77;
    p.equity_offered = 5;
    p.industry = "tech".to_string();
    p.is_public = true;
    let noop = ProjectUpdate {
        description: String::new(),
        funding_goal: 0,
        equity_offered: -1,
        is_public: false,
        industry: String::new(),
    };
    let once = update_project(&p, &noop);
    assert_eq!(once.description, "Desc");
    assert_eq!(once.funding_goal, 77);
    assert_eq!(once.equity_offered, 5);
    assert_eq!(once.industry, "tech");
    assert!(!once.is_public);
}

#[test]
fn project_update_applied_twice_is_the_same_state() {
    let p = create_project("Name", "Desc", OWNER).expect("create");
    let u = ProjectUpdate {
        description: String::new(),
        funding_goal: 0,
        equity_offered: -1,
        is_public: false,
        industry: "fintech".to_string(),
    };
    let once = update_project(&p, &u);
    let twice = update_project(&once, &u);
    assert_eq!(twice.description, once.description);
    assert_eq!(twice.funding_goal, once.funding_goal);
    assert_eq!(twice.equity_offered, once.equity_offered);
    assert_eq!(twice.is_public, once.is_public);
    assert_eq!(twice.industry, once.industry);
    assert_eq!(twice.id, once.id);
}

#[test]
fn zero_equity_counts_as_supplied() {
    let mut p = create_project("Name", "Desc", OWNER).expect("create");
    p.equity_offered = 40;
    let u = ProjectUpdate {
        description: String::new(),
        funding_goal: 0,
        equity_offered: 0,
        is_public: false,
        industry: String::new(),
    };
    assert_eq!(update_project(&p, &u).equity_offered, 0);
}

#[test]
fn task_update_honours_the_sentinels() {
    let t = create_task(OWNER, "Title", "Desc", "high", "").expect("create");
    let u = TaskUpdate { status: "doing".to_string(), priority: String::new(), position: -1 };
    let after = update_task(&t, &u);
    assert_eq!(after.status, "doing");
    assert_eq!(after.priority, "high");
    assert_eq!(after.position, 0);
    assert_eq!(after.title, "Title");

    let u = TaskUpdate { status: String::new(), priority: "low".to_string(), position: 4 };
    let after = update_task(&after, &u);
    assert_eq!(after.status, "doing");
    assert_eq!(after.priority, "low");
    assert_eq!(after.position, 4);
}
