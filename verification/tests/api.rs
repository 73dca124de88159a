use sweem_tui::api::{
    clients_report, connection_report, error_text, failure_message, projects_report,
    users_report, listing_url, next_page, record_url, records_url, refresh_after,
    success_message, ApiCommand, ApiMessage, EntityType, WorkerStep, DEFAULT_BASE_URL,
};
use sweem_tui::models::{short_id_text, CreateClientDto};

fn kinds(commands: &[ApiCommand]) -> Vec<WorkerStep> {
    commands.iter().map(|c| c.step()).collect()
}

#[test]
fn entity_names_and_paths() {
    assert_eq!(EntityType::Client.to_string(), "Client");
    assert_eq!(EntityType::Project.to_string(), "Project");
    assert_eq!(EntityType::User.name(), "User");
    assert_eq!(EntityType::Client.path(), "clients");
    assert_eq!(EntityType::Project.path(), "projects");
    assert_eq!(EntityType::User.path(), "users");
}

#[test]
fn refresh_follows_changes() {
    assert_eq!(
        kinds(&refresh_after(&ApiMessage::Created(EntityType::Client, 1))),
        vec![WorkerStep::Fetch(EntityType::Client), WorkerStep::Fetch(EntityType::Project)]
    );
    assert_eq!(
        kinds(&refresh_after(&ApiMessage::Updated(EntityType::Project))),
        vec![WorkerStep::Fetch(EntityType::Project)]
    );
    assert_eq!(
        kinds(&refresh_after(&ApiMessage::Deleted(EntityType::User, 1))),
        vec![WorkerStep::Fetch(EntityType::User), WorkerStep::Fetch(EntityType::Project)]
    );
    assert!(refresh_after(&ApiMessage::ConnectionStatus(true)).is_empty());
    assert!(refresh_after(&ApiMessage::Error("e".to_string())).is_empty());
    assert_eq!(ApiMessage::Updated(EntityType::User).changed_entity(), Some(EntityType::User));
    assert_eq!(ApiMessage::ProjectsLoaded(vec![]).changed_entity(), None);
}

#[test]
fn pages_follow_each_other() {
    assert_eq!(next_page(1, true), Some(2));
    assert_eq!(next_page(7, false), None);
    assert_eq!(next_page(i32::MAX, true), None);
}

#[test]
fn commands_map_to_steps() {
    assert_eq!(ApiCommand::RefreshAll.step(), WorkerStep::CheckAndFetchAll);
    assert_eq!(ApiCommand::CheckConnection.step(), WorkerStep::Check);
    assert_eq!(ApiCommand::Shutdown.step(), WorkerStep::Stop);
    assert_eq!(ApiCommand::RefreshUsers.step(), WorkerStep::Fetch(EntityType::User));
    assert_eq!(
        ApiCommand::CreateClient(CreateClientDto::new()).step(),
        WorkerStep::Create(EntityType::Client)
    );
    assert_eq!(ApiCommand::DeleteProject(4).step(), WorkerStep::Delete(EntityType::Project));
}

#[test]
fn worker_messages() {
    match failure_message(WorkerStep::Create(EntityType::Client), "boom") {
        Some(ApiMessage::Error(text)) => assert_eq!(text, "Create client failed: boom"),
        _ => panic!("an error was expected"),
    }
    match failure_message(WorkerStep::Delete(EntityType::User), "x") {
        Some(ApiMessage::Error(text)) => assert_eq!(text, "Delete user failed: x"),
        _ => panic!("an error was expected"),
    }
    match failure_message(WorkerStep::Update(EntityType::Project), "") {
        Some(ApiMessage::Error(text)) => assert_eq!(text, "Update project failed: "),
        _ => panic!("an error was expected"),
    }
    assert!(failure_message(WorkerStep::Check, "x").is_none());
    assert!(matches!(
        success_message(WorkerStep::Create(EntityType::User), 9),
        Some(ApiMessage::Created(EntityType::User, 9))
    ));
    assert!(matches!(
        success_message(WorkerStep::Update(EntityType::Client), 9),
        Some(ApiMessage::Updated(EntityType::Client))
    ));
    assert!(matches!(
        success_message(WorkerStep::Delete(EntityType::Project), 9),
        Some(ApiMessage::Deleted(EntityType::Project, 9))
    ));
    assert!(success_message(WorkerStep::Stop, 9).is_none());
}

#[test]
fn urls() {
    assert_eq!(DEFAULT_BASE_URL, "http://localhost:5094");
    assert_eq!(
        listing_url(DEFAULT_BASE_URL, EntityType::Project, 1, 100),
        "http://localhost:5094/projects?page=1&pageSize=100"
    );
    assert_eq!(listing_url("h", EntityType::User, 12, 1), "h/users?page=12&pageSize=1");
    assert_eq!(records_url("h", EntityType::Client), "h/clients");
    let id = uuid::Uuid::parse_str("a1b2c3d4-0000-4000-8000-0123456789ab").unwrap();
    assert_eq!(
        record_url("h", EntityType::Client, id.as_u128()),
        "h/clients/a1b2c3d4-0000-4000-8000-0123456789ab"
    );
    assert_eq!(error_text("404 Not Found", "nothing"), "API error: 404 Not Found - nothing");
}

#[test]
fn short_id_is_the_beginning_of_the_uuid() {
    let id = uuid::Uuid::parse_str("a1b2c3d4-0000-4000-8000-0123456789ab").unwrap();
    assert_eq!(short_id_text(id.as_u128()), "a1b2c3d4");
    assert_eq!(short_id_text(0), "00000000");
    assert_eq!(short_id_text(u128::MAX), "ffffffff");
}

#[test]
fn worker_reports() {
    let up = connection_report(true);
    assert_eq!(up.len(), 1);
    assert!(matches!(up[0], ApiMessage::ConnectionStatus(true)));
    let down = connection_report(false);
    assert_eq!(down.len(), 2);
    assert!(matches!(down[0], ApiMessage::ConnectionStatus(false)));
    match &down[1] {
        ApiMessage::Error(text) => assert_eq!(text, "Cannot connect to API"),
        _ => panic!("an error was expected"),
    }
    assert!(matches!(projects_report(Ok(vec![])), ApiMessage::ProjectsLoaded(_)));
    assert!(matches!(clients_report(Ok(vec![])), ApiMessage::ClientsLoaded(_)));
    assert!(matches!(users_report(Ok(vec![])), ApiMessage::UsersLoaded(_)));
    match users_report(Err("late".to_string())) {
        ApiMessage::Error(text) => assert_eq!(text, "late"),
        _ => panic!("an error was expected"),
    }
}
