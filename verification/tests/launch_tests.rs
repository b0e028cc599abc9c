use venture_core::domain::{IdeaRecord, IdeaStatus};
use venture_core::errors::ServiceError;
use venture_core::launch::{launch_project, LaunchWrite};

fn open_idea() -> IdeaRecord {
    IdeaRecord {
        id: "I1".to_string(),
        creator_id: "U1".to_string(),
        title: "Original idea".to_string(),
        problem: "problem".to_string(),
        solution: "solution".to_string(),
        status: IdeaStatus::Open,
    }
}

#[test]
fn missing_idea_aborts_with_not_found() {
    assert_eq!(
        launch_project(None, "Acme", "d", "tech").unwrap_err(),
        ServiceError::NotFound
    );
}

#[test]
fn launch_builds_the_project_from_the_idea() {
    let idea = open_idea();
    let plan = launch_project(Some(&idea), "Acme", "d", "tech").expect("launch");
    assert_eq!(plan.project.owner_id, "U1");
    assert_eq!(plan.project.name, "Acme");
    assert_eq!(plan.project.description, "d");
    assert_eq!(plan.project.industry, "tech");
    assert_eq!(plan.project.status, "active");
    assert_eq!(plan.project.funding_goal, 0);
    assert_eq!(plan.project.equity_offered, 0);
    assert!(!plan.project.is_public);
    assert!(uuid::Uuid::parse_str(&plan.project.id).is_ok());
}

#[test]
fn launch_plans_five_steps_in_order() {
    let idea = open_idea();
    let plan = launch_project(Some(&idea), "Acme", "d", "tech").expect("launch");
    assert_eq!(plan.steps.len(), 5);

    match &plan.steps[0].write {
        LaunchWrite::InsertProject(p) => {
            assert_eq!(p.id, plan.project.id);
            assert_eq!(p.owner_id, "U1");
        },
        other => panic!("step 0 is not the project insert: {:?}", other),
    }
    assert!(plan.steps[0].required);

    let expected = [
        ("Market Research", "Identify target demographics and competitors."),
        ("MVP Prototype", "Build the core functionality of the solution."),
        ("Investor Deck", "Prepare slides for the first funding round."),
    ];
    for (k, (title, desc)) in expected.iter().enumerate() {
        let step = &plan.steps[k + 1];
        assert!(!step.required);
        match &step.write {
            LaunchWrite::InsertTask(t) => {
                assert_eq!(t.title, *title);
                assert_eq!(t.description, *desc);
                assert_eq!(t.project_id, plan.project.id);
                assert_eq!(t.priority, "high");
                assert_eq!(t.status, "todo");
                assert_eq!(t.assignee_id, None);
                assert_eq!(t.position, 0);
            },
            other => panic!("step {} is not a task insert: {:?}", k + 1, other),
        }
    }

    match &plan.steps[4].write {
        LaunchWrite::MarkIdeaLaunched(id) => assert_eq!(id, "I1"),
        other => panic!("step 4 is not the status flip: {:?}", other),
    }
    assert!(!plan.steps[4].required);
}

#[test]
fn seed_task_identifiers_are_fresh_and_distinct() {
    let idea = open_idea();
    let plan = launch_project(Some(&idea), "Acme", "d", "tech").expect("launch");
    let mut ids = vec![plan.project.id.clone()];
    for step in &plan.steps {
        if let LaunchWrite::InsertTask(t) = &step.write {
            assert!(uuid::Uuid::parse_str(&t.id).is_ok());
            ids.push(t.id.clone());
        }
    }
    assert_eq!(ids.len(), 4);
    for a in 0..ids.len() {
        for b in (a + 1)..ids.len() {
            assert_ne!(ids[a], ids[b]);
        }
    }
}
