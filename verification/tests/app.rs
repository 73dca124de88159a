use sweem_tui::api::{ApiCommand, ApiMessage, EntityType};
use sweem_tui::app::{App, ConfirmDialog, ErrorPopup, InputMode, LogEntry, LogLevel, Tab};
use sweem_tui::dates::Date;
use sweem_tui::forms::{FormField, FormType};
use sweem_tui::keys::{KeyCode, KeyEvent};
use sweem_tui::models::{ClientDto, ProjectDto, Role, UserDto};
use sweem_tui::particles::ParticleMode;

fn today() -> Date {
    Date::parse("2024-03-15").unwrap()
}

fn press(app: &mut App, code: KeyCode) -> Option<ApiCommand> {
    app.handle_key(KeyEvent::plain(code), 0, today())
}

fn project(id: u128, start: &str, end: &str) -> ProjectDto {
    ProjectDto {
        id,
        client_id: 21,
        name: Some(format!("P{}", id)),
        start_date: Date::parse(start).unwrap(),
        planned_end_date: Date::parse(end).unwrap(),
        actual_end_date: None,
        manager_id: 31,
    }
}

fn client(id: u128, name: &str) -> ClientDto {
    ClientDto {
        id,
        name: Some(name.to_string()),
        address: None,
        projects_total: 0,
        projects_completed: 0,
    }
}

fn user(id: u128, name: &str) -> UserDto {
    UserDto { id, name: Some(name.to_string()), login: None, role: Role::Manager }
}

fn loaded() -> App {
    let mut app = App::new(0);
    app.handle_api_message(ApiMessage::ClientsLoaded(vec![client(21, "Acme"), client(22, "Bolt")]), 1);
    app.handle_api_message(ApiMessage::UsersLoaded(vec![user(31, "Ann")]), 2);
    app.handle_api_message(
        ApiMessage::ProjectsLoaded(vec![
            project(1, "2024-01-01", "2024-01-31"),
            project(2, "2024-06-01", "2024-12-31"),
            project(3, "2024-03-01", "2024-03-31"),
        ]),
        3,
    );
    app
}

fn last_log(app: &App) -> (LogLevel, String) {
    let entry = app.logs.last().unwrap();
    (entry.level, entry.message.clone())
}

#[test]
fn tabs_cycle() {
    assert_eq!(Tab::Clients.next(), Tab::Timeline);
    assert_eq!(Tab::Timeline.next(), Tab::Users);
    assert_eq!(Tab::Users.next(), Tab::Clients);
    assert_eq!(Tab::Clients.previous(), Tab::Users);
    assert_eq!(Tab::Timeline.previous(), Tab::Clients);
    assert_eq!(Tab::Users.previous(), Tab::Timeline);
    assert_eq!(Tab::Clients.name(), "Clients");
    assert_eq!(Tab::Timeline.name(), "Timeline");
    assert_eq!(Tab::Users.name(), "Users");
    assert_eq!(Tab::default(), Tab::Timeline);
    assert_eq!(Tab::Users.index(), 2);
    assert_eq!(InputMode::default(), InputMode::Normal);
}

#[test]
fn log_entries_carry_their_level() {
    assert_eq!(LogEntry::info("a".to_string(), 5).level, LogLevel::Info);
    assert_eq!(LogEntry::success("a".to_string(), 5).level, LogLevel::Success);
    assert_eq!(LogEntry::warning("a".to_string(), 5).level, LogLevel::Warning);
    let e = LogEntry::error("boom".to_string(), 5);
    assert_eq!((e.level, e.message.as_str(), e.timestamp), (LogLevel::Error, "boom", 5));
}

#[test]
fn error_popup_dismisses_after_five_seconds() {
    let popup = ErrorPopup::new("T".to_string(), "M".to_string(), 1000);
    assert_eq!(popup.auto_dismiss, Some(5000));
    assert!(!popup.should_dismiss(1000));
    assert!(!popup.should_dismiss(6000));
    assert!(popup.should_dismiss(6001));
    assert!(!popup.should_dismiss(0));
    let sticky = ErrorPopup { auto_dismiss: None, ..popup };
    assert!(!sticky.should_dismiss(u64::MAX));
}

#[test]
fn confirm_dialog_asks_and_commands() {
    let d = ConfirmDialog::new_delete(EntityType::Project, 5, "Apollo");
    assert_eq!(d.title, "Delete Project");
    assert_eq!(
        d.message,
        "Are you sure you want to delete \"Apollo\"?\nThis action cannot be undone."
    );
    assert!(!d.yes_focused);
    assert!(matches!(d.delete_command(), ApiCommand::DeleteProject(5)));
    let c = ConfirmDialog::new_delete(EntityType::Client, 6, "");
    assert!(matches!(c.delete_command(), ApiCommand::DeleteClient(6)));
    let u = ConfirmDialog::new_delete(EntityType::User, 7, "");
    assert!(matches!(u.delete_command(), ApiCommand::DeleteUser(7)));
}

#[test]
fn app_starts_loading_with_two_log_lines() {
    let app = App::new(42);
    assert!(!app.should_quit);
    assert_eq!(app.active_tab, Tab::Timeline);
    assert_eq!(app.input_mode, InputMode::Normal);
    assert!(app.is_loading);
    assert!(!app.api_connected);
    assert_eq!(app.particle_mode, ParticleMode::FloatingAsh);
    assert_eq!(app.logs.len(), 2);
    assert_eq!(app.logs[0].message, "SWEeM TUI initialized");
    assert_eq!(app.logs[1].message, "Connecting to API...");
    assert_eq!(app.logs[1].timestamp, 42);
    assert_eq!(app.max_logs, 100);
}

#[test]
fn log_keeps_the_newest_entries() {
    let mut app = App::new(0);
    for i in 0..150u64 {
        app.log(LogEntry::info(format!("m{}", i), i));
    }
    assert_eq!(app.logs.len(), 100);
    assert_eq!(app.logs[0].message, "m50");
    assert_eq!(app.logs[99].message, "m149");
}

#[test]
fn show_error_logs_and_pops_up() {
    let mut app = App::new(0);
    app.show_error("Title".to_string(), "went wrong".to_string(), 9);
    assert_eq!(last_log(&app), (LogLevel::Error, "Title: went wrong".to_string()));
    let popup = app.error_popup.as_ref().unwrap();
    assert_eq!((popup.title.as_str(), popup.message.as_str(), popup.shown_at), ("Title", "went wrong", 9));
    app.dismiss_error();
    assert!(app.error_popup.is_none());
}

#[test]
fn messages_load_data() {
    let app = loaded();
    assert_eq!(app.clients.len(), 2);
    assert_eq!(app.users.len(), 1);
    assert_eq!(app.projects.len(), 3);
    assert!(!app.is_loading);
    assert_eq!(app.last_refresh, Some(3));
    assert_eq!(last_log(&app), (LogLevel::Success, "Loaded 3 projects".to_string()));
    assert_eq!(app.logs[2].message, "Loaded 2 clients");
    assert_eq!(app.logs[3].message, "Loaded 1 users");
    assert_eq!(app.timeline_state.selected_project, Some(0));
    assert_eq!(app.timeline_state.scroll_offset, 0);
}

#[test]
fn loading_projects_keeps_a_selection_and_resets_the_scroll() {
    let mut app = loaded();
    app.timeline_state.selected_project = Some(2);
    app.timeline_state.scroll_offset = 55;
    app.handle_api_message(ApiMessage::ProjectsLoaded(vec![project(1, "2024-01-01", "2024-01-31")]), 7);
    assert_eq!(app.timeline_state.selected_project, Some(2));
    assert_eq!(app.timeline_state.scroll_offset, 0);
    app.timeline_state.scroll_offset = 55;
    app.handle_api_message(ApiMessage::ProjectsLoaded(vec![]), 8);
    assert_eq!(app.timeline_state.scroll_offset, 55);
    assert_eq!(last_log(&app).1, "Loaded 0 projects");
}

#[test]
fn connection_changes_are_logged_once() {
    let mut app = App::new(0);
    app.handle_api_message(ApiMessage::ConnectionStatus(true), 1);
    assert!(app.api_connected);
    assert_eq!(last_log(&app), (LogLevel::Success, "Connected to API".to_string()));
    let count = app.logs.len();
    app.handle_api_message(ApiMessage::ConnectionStatus(true), 2);
    assert_eq!(app.logs.len(), count);
    app.handle_api_message(ApiMessage::ConnectionStatus(false), 3);
    assert_eq!(last_log(&app), (LogLevel::Warning, "Disconnected from API".to_string()));
    app.handle_api_message(ApiMessage::ConnectionStatus(false), 4);
    assert_eq!(app.logs.len(), count + 1);
}

#[test]
fn error_message_stops_loading_and_pops_up() {
    let mut app = App::new(0);
    app.handle_api_message(ApiMessage::Error("no route".to_string()), 4);
    assert!(!app.is_loading);
    assert_eq!(last_log(&app), (LogLevel::Error, "API Error: no route".to_string()));
    assert_eq!(app.error_popup.as_ref().unwrap().title, "API Error");
}

#[test]
fn change_messages_use_the_short_id_and_close() {
    let id = uuid::Uuid::parse_str("a1b2c3d4-0000-4000-8000-0123456789ab").unwrap();
    let mut app = loaded();
    app.active_tab = Tab::Clients;
    press(&mut app, KeyCode::Char('c'));
    assert_eq!(app.input_mode, InputMode::Editing);
    app.handle_api_message(ApiMessage::Created(EntityType::Client, id.as_u128()), 5);
    assert_eq!(last_log(&app), (LogLevel::Success, "Client created (a1b2c3d4)".to_string()));
    assert!(app.form_state.is_none());
    assert_eq!(app.input_mode, InputMode::Normal);
    app.handle_api_message(ApiMessage::Updated(EntityType::User), 6);
    assert_eq!(last_log(&app).1, "User updated");
    press(&mut app, KeyCode::Char('d'));
    assert_eq!(app.input_mode, InputMode::Confirming);
    app.handle_api_message(ApiMessage::Deleted(EntityType::Project, id.as_u128()), 7);
    assert_eq!(last_log(&app).1, "Project deleted (a1b2c3d4)");
    assert!(app.confirm_dialog.is_none());
    assert_eq!(app.input_mode, InputMode::Normal);
}

#[test]
fn error_popup_swallows_keys() {
    let mut app = loaded();
    app.show_error("T".to_string(), "M".to_string(), 0);
    assert!(press(&mut app, KeyCode::Char('q')).is_none());
    assert!(!app.should_quit);
    assert!(app.error_popup.is_some());
    press(&mut app, KeyCode::Char(' '));
    assert!(app.error_popup.is_none());
    app.show_error("T".to_string(), "M".to_string(), 0);
    press(&mut app, KeyCode::Esc);
    assert!(app.error_popup.is_none());
}

#[test]
fn help_overlay_opens_and_closes() {
    let mut app = loaded();
    press(&mut app, KeyCode::Char('?'));
    assert!(app.show_help);
    press(&mut app, KeyCode::Tab);
    assert!(app.show_help);
    assert_eq!(app.active_tab, Tab::Timeline);
    press(&mut app, KeyCode::Char('?'));
    assert!(!app.show_help);
}

#[test]
fn quit_and_refresh_send_commands() {
    let mut app = loaded();
    assert!(matches!(press(&mut app, KeyCode::Char('r')), Some(ApiCommand::RefreshAll)));
    assert!(app.is_loading);
    assert_eq!(last_log(&app), (LogLevel::Info, "Refreshing data...".to_string()));
    assert!(matches!(press(&mut app, KeyCode::Char('q')), Some(ApiCommand::Shutdown)));
    assert!(app.should_quit);
    let mut app = loaded();
    let ctrl_c = KeyEvent { code: KeyCode::Char('c'), shift: false, control: true };
    assert!(matches!(app.handle_key(ctrl_c, 0, today()), Some(ApiCommand::Shutdown)));
    assert!(app.form_state.is_none());
}

#[test]
fn particle_key_cycles_the_mode() {
    let mut app = loaded();
    let mut names = vec![];
    for _ in 0..4 {
        press(&mut app, KeyCode::Char('p'));
        names.push(last_log(&app).1);
    }
    assert_eq!(
        names,
        vec![
            "Particle mode: Dust",
            "Particle mode: Embers",
            "Particle mode: None",
            "Particle mode: Floating Ash"
        ]
    );
    assert_eq!(app.particle_mode, ParticleMode::FloatingAsh);
}

#[test]
fn tab_keys_switch_tabs_and_reset_the_list() {
    let mut app = loaded();
    app.list_selected = 1;
    press(&mut app, KeyCode::Tab);
    assert_eq!((app.active_tab, app.list_selected), (Tab::Users, 0));
    press(&mut app, KeyCode::BackTab);
    press(&mut app, KeyCode::BackTab);
    assert_eq!(app.active_tab, Tab::Clients);
}

#[test]
fn list_keys_move_the_selection() {
    let mut app = loaded();
    app.active_tab = Tab::Clients;
    press(&mut app, KeyCode::Char('j'));
    assert_eq!(app.list_selected, 1);
    press(&mut app, KeyCode::Down);
    assert_eq!(app.list_selected, 0);
    press(&mut app, KeyCode::Up);
    assert_eq!(app.list_selected, 1);
    press(&mut app, KeyCode::Char('k'));
    assert_eq!(app.list_selected, 0);
    press(&mut app, KeyCode::Char('G'));
    assert_eq!(app.list_selected, 1);
    press(&mut app, KeyCode::Char('g'));
    assert_eq!(app.list_selected, 0);
    app.clients.clear();
    app.list_selected = 4;
    press(&mut app, KeyCode::Char('j'));
    assert_eq!(app.list_selected, 4);
}

#[test]
fn timeline_keys_scroll_zoom_and_reset() {
    let mut app = loaded();
    press(&mut app, KeyCode::Char('l'));
    assert_eq!(app.timeline_state.scroll_offset, 1);
    let shift_right = KeyEvent { code: KeyCode::Right, shift: true, control: false };
    app.handle_key(shift_right, 0, today());
    assert_eq!(app.timeline_state.scroll_offset, 8);
    press(&mut app, KeyCode::Char('h'));
    assert_eq!(app.timeline_state.scroll_offset, 7);
    let shift_left = KeyEvent { code: KeyCode::Left, shift: true, control: false };
    app.handle_key(shift_left, 0, today());
    app.handle_key(shift_left, 0, today());
    assert_eq!(app.timeline_state.scroll_offset, 0);
    press(&mut app, KeyCode::Char('+'));
    assert_eq!(app.timeline_state.zoom.quarters(), 2);
    press(&mut app, KeyCode::Char('='));
    assert_eq!(app.timeline_state.zoom.quarters(), 1);
    press(&mut app, KeyCode::Char('-'));
    assert_eq!(app.timeline_state.zoom.quarters(), 2);
    press(&mut app, KeyCode::Right);
    press(&mut app, KeyCode::Home);
    assert_eq!(app.timeline_state.scroll_offset, 0);
}

#[test]
fn timeline_selection_jumps_to_the_project() {
    let mut app = loaded();
    // epoch 2024-01-01; project 2 spans 2024-06-01..2024-12-31: 152 + 213 / 2 = 258
    press(&mut app, KeyCode::Char('j'));
    assert_eq!(app.timeline_state.selected_project, Some(1));
    assert_eq!(app.timeline_state.scroll_offset, 258 - 37);
    press(&mut app, KeyCode::Char('k'));
    assert_eq!(app.timeline_state.selected_project, Some(0));
    assert_eq!(app.timeline_state.scroll_offset, 0);
    press(&mut app, KeyCode::Up);
    assert_eq!(app.timeline_state.selected_project, Some(2));
    // project 3 spans 2024-03-01..2024-03-31: 60 + 15 = 75
    assert_eq!(app.timeline_state.scroll_offset, 75 - 37);
    app.timeline_state.scroll_offset = 500;
    press(&mut app, KeyCode::Enter);
    assert_eq!(app.timeline_state.scroll_offset, 38);
    press(&mut app, KeyCode::Enter);
    assert_eq!(app.timeline_state.scroll_offset, 38);
}

#[test]
fn stale_selection_is_passed_over_and_kept() {
    let mut app = loaded();
    app.timeline_state.selected_project = Some(7);
    app.timeline_state.scroll_offset = 12;
    press(&mut app, KeyCode::Enter);
    assert_eq!(app.timeline_state.scroll_offset, 12);
    assert_eq!(app.timeline_state.selected_project, Some(7));
    press(&mut app, KeyCode::Char('e'));
    assert!(app.form_state.is_none());
    press(&mut app, KeyCode::Char('d'));
    assert!(app.confirm_dialog.is_none());
    assert_eq!(app.input_mode, InputMode::Normal);
}

#[test]
fn center_on_today_key() {
    let mut app = loaded();
    // today is day 74 from the epoch; half of 80 columns is 40 days
    press(&mut app, KeyCode::Char('t'));
    assert_eq!(app.timeline_state.scroll_offset, 34);
}

#[test]
fn create_form_follows_the_tab() {
    let mut app = loaded();
    press(&mut app, KeyCode::Char('c'));
    assert_eq!(app.input_mode, InputMode::Editing);
    let form = app.form_state.as_ref().unwrap();
    assert_eq!(form.form_type, FormType::CreateProject);
    assert_eq!(form.project_start_date, "2024-03-15");
    press(&mut app, KeyCode::Esc);
    assert!(app.form_state.is_none());
    assert_eq!(app.input_mode, InputMode::Normal);
    app.active_tab = Tab::Users;
    press(&mut app, KeyCode::Char('c'));
    assert_eq!(app.form_state.as_ref().unwrap().form_type, FormType::CreateUser);
}

#[test]
fn edit_form_opens_for_the_selected_record() {
    let mut app = loaded();
    app.active_tab = Tab::Clients;
    app.list_selected = 1;
    press(&mut app, KeyCode::Char('e'));
    let form = app.form_state.as_ref().unwrap();
    assert_eq!(form.form_type, FormType::EditClient(22));
    assert_eq!(form.client_name, "Bolt");
    app.close_form();
    app.list_selected = 9;
    press(&mut app, KeyCode::Char('e'));
    assert!(app.form_state.is_none());
    app.active_tab = Tab::Timeline;
    app.timeline_state.selected_project = Some(1);
    app.open_edit_form();
    assert_eq!(app.form_state.as_ref().unwrap().form_type, FormType::EditProject(2));
}

#[test]
fn filling_in_and_sending_a_client_form() {
    let mut app = loaded();
    app.active_tab = Tab::Clients;
    press(&mut app, KeyCode::Char('c'));
    for c in "Zed".chars() {
        press(&mut app, KeyCode::Char(c));
    }
    press(&mut app, KeyCode::Backspace);
    assert_eq!(app.form_state.as_ref().unwrap().client_name, "Ze");
    // Enter on a text field moves on
    assert!(press(&mut app, KeyCode::Enter).is_none());
    assert_eq!(app.form_state.as_ref().unwrap().current_field(), FormField::ClientAddress);
    press(&mut app, KeyCode::Tab);
    assert_eq!(app.form_state.as_ref().unwrap().current_field(), FormField::SubmitButton);
    match press(&mut app, KeyCode::Enter) {
        Some(ApiCommand::CreateClient(dto)) => {
            assert_eq!(dto.name.as_deref(), Some("Ze"));
            assert_eq!(dto.address, None);
        }
        _ => panic!("a create command was expected"),
    }
    assert_eq!(last_log(&app), (LogLevel::Info, "Creating client...".to_string()));
    assert!(app.form_state.is_some());
}

#[test]
fn a_form_that_fails_its_check_shows_the_complaint() {
    let mut app = loaded();
    app.active_tab = Tab::Users;
    press(&mut app, KeyCode::Char('c'));
    for _ in 0..4 {
        press(&mut app, KeyCode::Tab);
    }
    let logs = app.logs.len();
    assert!(press(&mut app, KeyCode::Enter).is_none());
    assert_eq!(app.form_state.as_ref().unwrap().error.as_deref(), Some("Name is required"));
    assert_eq!(app.logs.len(), logs);
    press(&mut app, KeyCode::Tab);
    assert_eq!(app.form_state.as_ref().unwrap().current_field(), FormField::CancelButton);
    assert!(press(&mut app, KeyCode::Enter).is_none());
    assert!(app.form_state.is_none());
}

#[test]
fn enter_on_a_choice_does_nothing() {
    let mut app = loaded();
    press(&mut app, KeyCode::Char('c'));
    press(&mut app, KeyCode::Tab);
    assert_eq!(app.form_state.as_ref().unwrap().current_field(), FormField::ProjectClient);
    press(&mut app, KeyCode::Down);
    assert_eq!(app.form_state.as_ref().unwrap().project_client_idx, 1);
    press(&mut app, KeyCode::Down);
    assert_eq!(app.form_state.as_ref().unwrap().project_client_idx, 1);
    assert!(press(&mut app, KeyCode::Enter).is_none());
    assert_eq!(app.form_state.as_ref().unwrap().current_field(), FormField::ProjectClient);
    press(&mut app, KeyCode::Tab);
    press(&mut app, KeyCode::Tab);
    press(&mut app, KeyCode::Right);
    assert_eq!(app.form_state.as_ref().unwrap().project_start_date, "2024-03-22");
    press(&mut app, KeyCode::Down);
    press(&mut app, KeyCode::Left);
    assert_eq!(app.form_state.as_ref().unwrap().project_start_date, "2024-03-14");
    press(&mut app, KeyCode::Up);
    assert_eq!(app.form_state.as_ref().unwrap().project_start_date, "2024-03-15");
}

#[test]
fn editing_without_a_form_returns_to_normal() {
    let mut app = loaded();
    app.input_mode = InputMode::Editing;
    assert!(press(&mut app, KeyCode::Char('x')).is_none());
    assert_eq!(app.input_mode, InputMode::Normal);
    app.input_mode = InputMode::Confirming;
    assert!(press(&mut app, KeyCode::Enter).is_none());
    assert_eq!(app.input_mode, InputMode::Normal);
}

#[test]
fn delete_is_confirmed_or_not() {
    let mut app = loaded();
    app.active_tab = Tab::Users;
    press(&mut app, KeyCode::Delete);
    assert_eq!(app.input_mode, InputMode::Confirming);
    assert_eq!(app.confirm_dialog.as_ref().unwrap().title, "Delete User");
    // "No" has the focus
    assert!(press(&mut app, KeyCode::Enter).is_none());
    assert!(app.confirm_dialog.is_none());
    press(&mut app, KeyCode::Char('d'));
    press(&mut app, KeyCode::Left);
    assert!(app.confirm_dialog.as_ref().unwrap().yes_focused);
    assert!(matches!(press(&mut app, KeyCode::Enter), Some(ApiCommand::DeleteUser(31))));
    assert_eq!(last_log(&app), (LogLevel::Info, "Deleting User...".to_string()));
    assert!(app.confirm_dialog.is_some());
    press(&mut app, KeyCode::Char('n'));
    assert!(app.confirm_dialog.is_none());
    app.active_tab = Tab::Timeline;
    press(&mut app, KeyCode::Char('d'));
    assert!(matches!(press(&mut app, KeyCode::Char('Y')), Some(ApiCommand::DeleteProject(1))));
    press(&mut app, KeyCode::Tab);
    assert!(app.confirm_dialog.as_ref().unwrap().yes_focused);
    press(&mut app, KeyCode::Esc);
    assert_eq!(app.input_mode, InputMode::Normal);
}

#[test]
fn tick_advances_and_dismisses() {
    let mut app = App::new(0);
    app.show_error("T".to_string(), "M".to_string(), 100);
    app.tick(5100);
    assert_eq!(app.frame_count, 1);
    assert_eq!(app.timeline_state.animation_frame, 1);
    assert!(app.error_popup.is_some());
    app.tick(5101);
    assert!(app.error_popup.is_none());
    app.frame_count = u64::MAX;
    app.tick(0);
    assert_eq!(app.frame_count, 0);
}

#[test]
fn status_text_tells_connection_and_age() {
    let mut app = App::new(0);
    assert_eq!(
        app.status_text(0),
        "Disconnected [Loading...] | Timeline | ?: Help | c: Create | e: Edit | d: Delete | q: Quit"
    );
    app.api_connected = true;
    app.is_loading = false;
    app.last_refresh = Some(1000);
    app.active_tab = Tab::Users;
    assert_eq!(
        app.status_text(60_999),
        "Connected (59s ago) | Users | ?: Help | c: Create | e: Edit | d: Delete | q: Quit"
    );
    assert_eq!(
        app.status_text(181_000),
        "Connected (3m ago) | Users | ?: Help | c: Create | e: Edit | d: Delete | q: Quit"
    );
    assert!(app.status_text(0).starts_with("Connected (0s ago)"));
}
