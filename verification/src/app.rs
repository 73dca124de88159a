//! The state of the application and what key presses, messages from the
//! worker and the passing of time do to it.
//!
//! Time is handed in: `now` counts milliseconds from a start that the
//! caller picks, and `today` is the date of the day.

use vstd::prelude::*;
use crate::api::{ApiCommand, ApiMessage, EntityType};
use crate::dates::Date;
use crate::forms::{FormField, FormState, FormType, FormView};
use crate::keys::{KeyCode, KeyEvent};
use crate::models::{ClientDto, ProjectDto, UserDto, Id};
use crate::particles::ParticleMode;
use crate::text::{concat2, concat3, decimal, decimal_digits};
use crate::timeline::TimelineState;

verus! {

/// Milliseconds after which an error popup goes away by itself.
pub const AUTO_DISMISS_MS: u64 = 5000;

/// Log entries kept.
pub const MAX_LOGS: usize = 100;

/// Columns assumed for the terminal when the timeline jumps to a project.
pub const JUMP_VIEWPORT_WIDTH: u16 = 100;

/// Columns assumed for the date axis when the timeline centers on today.
pub const CENTER_VIEWPORT_WIDTH: u16 = 80;

/// Days scrolled by a key press, and with Shift held.
pub const SCROLL_STEP: i64 = 1;

pub const SCROLL_STEP_SHIFT: i64 = 7;

/// Days a date field moves with the left and right arrow keys.
pub const WEEK_DAYS: usize = 7;

/// The tabs of the application.
#[derive(Debug, Clone, Copy, PartialEq, Eq, Structural)]
pub enum Tab {
    Clients,
    Timeline,
    Users,
}

impl Default for Tab {
    fn default() -> (tab: Tab)
        ensures
            tab == Tab::Timeline,
    {
        Tab::Timeline
    }
}

impl Tab {
    pub open spec fn spec_next(self) -> Tab {
        match self {
            Tab::Clients => Tab::Timeline,
            Tab::Timeline => Tab::Users,
            Tab::Users => Tab::Clients,
        }
    }

    pub open spec fn spec_previous(self) -> Tab {
        match self {
            Tab::Clients => Tab::Users,
            Tab::Timeline => Tab::Clients,
            Tab::Users => Tab::Timeline,
        }
    }

    pub open spec fn spec_name(self) -> &'static str {
        match self {
            Tab::Clients => "Clients",
            Tab::Timeline => "Timeline",
            Tab::Users => "Users",
        }
    }

    /// The kind of record a tab lists.
    pub open spec fn spec_entity(self) -> EntityType {
        match self {
            Tab::Clients => EntityType::Client,
            Tab::Timeline => EntityType::Project,
            Tab::Users => EntityType::User,
        }
    }

    /// Move to the next tab.
    pub fn next(&self) -> (tab: Tab)
        ensures
            tab == self.spec_next(),
    {
        match self {
            Tab::Clients => Tab::Timeline,
            Tab::Timeline => Tab::Users,
            Tab::Users => Tab::Clients,
        }
    }

    /// Move to the previous tab.
    pub fn previous(&self) -> (tab: Tab)
        ensures
            tab == self.spec_previous(),
    {
        match self {
            Tab::Clients => Tab::Users,
            Tab::Timeline => Tab::Clients,
            Tab::Users => Tab::Timeline,
        }
    }

    /// The name shown for the tab.
    pub fn name(&self) -> (name: &'static str)
        ensures
            name == self.spec_name(),
    {
        match self {
            Tab::Clients => "Clients",
            Tab::Timeline => "Timeline",
            Tab::Users => "Users",
        }
    }

    /// The position of the tab in the tab bar.
    pub fn index(&self) -> (i: usize)
        ensures
            i == (match *self {
                Tab::Clients => 0usize,
                Tab::Timeline => 1usize,
                Tab::Users => 2usize,
            }),
    {
        match self {
            Tab::Clients => 0,
            Tab::Timeline => 1,
            Tab::Users => 2,
        }
    }
}

/// The tabs go round in both directions, and one way undoes the other.
pub proof fn lemma_tabs_cycle(tab: Tab)
    ensures
        tab.spec_next().spec_previous() == tab,
        tab.spec_previous().spec_next() == tab,
        tab.spec_next().spec_next().spec_next() == tab,
{
}

/// What key presses are taken for.
#[derive(Debug, Clone, Copy, PartialEq, Eq, Structural)]
pub enum InputMode {
    /// Moving about.
    Normal,
    /// Filling in a form.
    Editing,
    /// Answering a question.
    Confirming,
}

impl Default for InputMode {
    fn default() -> (mode: InputMode)
        ensures
            mode == InputMode::Normal,
    {
        InputMode::Normal
    }
}

/// How grave a log entry is.
#[derive(Debug, Clone, Copy, PartialEq, Eq, Structural)]
pub enum LogLevel {
    Info,
    Success,
    Warning,
    Error,
}

/// An entry of the message area.
#[derive(Debug, Clone)]
pub struct LogEntry {
    /// When the entry was made.
    pub timestamp: u64,
    pub message: String,
    pub level: LogLevel,
}

/// A log entry, with its message as a sequence of characters.
pub struct LogView {
    pub timestamp: u64,
    pub message: Seq<char>,
    pub level: LogLevel,
}

impl View for LogEntry {
    type V = LogView;

    open spec fn view(&self) -> LogView {
        LogView { timestamp: self.timestamp, message: self.message@, level: self.level }
    }
}

impl LogEntry {
    pub fn info(message: String, now: u64) -> (entry: LogEntry)
        ensures
            entry == (LogEntry { timestamp: now, message, level: LogLevel::Info }),
    {
        LogEntry { timestamp: now, message, level: LogLevel::Info }
    }

    pub fn success(message: String, now: u64) -> (entry: LogEntry)
        ensures
            entry == (LogEntry { timestamp: now, message, level: LogLevel::Success }),
    {
        LogEntry { timestamp: now, message, level: LogLevel::Success }
    }

    pub fn warning(message: String, now: u64) -> (entry: LogEntry)
        ensures
            entry == (LogEntry { timestamp: now, message, level: LogLevel::Warning }),
    {
        LogEntry { timestamp: now, message, level: LogLevel::Warning }
    }

    pub fn error(message: String, now: u64) -> (entry: LogEntry)
        ensures
            entry == (LogEntry { timestamp: now, message, level: LogLevel::Error }),
    {
        LogEntry { timestamp: now, message, level: LogLevel::Error }
    }
}

/// An error shown over the screen.
#[derive(Debug, Clone)]
pub struct ErrorPopup {
    pub title: String,
    pub message: String,
    /// When the popup came up.
    pub shown_at: u64,
    /// Milliseconds after which it goes away by itself; `None` to stay
    /// until a key dismisses it.
    pub auto_dismiss: Option<u64>,
}

/// An error popup, with its texts as sequences of characters.
pub struct PopupView {
    pub title: Seq<char>,
    pub message: Seq<char>,
    pub shown_at: u64,
    pub auto_dismiss: Option<u64>,
}

impl View for ErrorPopup {
    type V = PopupView;

    open spec fn view(&self) -> PopupView {
        PopupView {
            title: self.title@,
            message: self.message@,
            shown_at: self.shown_at,
            auto_dismiss: self.auto_dismiss,
        }
    }
}

/// Milliseconds from `since` to `now`; none where `now` is the earlier.
pub open spec fn elapsed_ms(since: u64, now: u64) -> int {
    if now >= since {
        now - since
    } else {
        0
    }
}

impl PopupView {
    /// Whether the popup has been up for longer than it is to stay.
    pub open spec fn due(self, now: u64) -> bool {
        match self.auto_dismiss {
            Some(duration) => elapsed_ms(self.shown_at, now) > duration,
            None => false,
        }
    }
}

impl ErrorPopup {
    /// A popup that comes up at `now` and goes away after five seconds.
    pub fn new(title: String, message: String, now: u64) -> (popup: ErrorPopup)
        ensures
            popup == (ErrorPopup {
                title,
                message,
                shown_at: now,
                auto_dismiss: Some(AUTO_DISMISS_MS),
            }),
    {
        ErrorPopup { title, message, shown_at: now, auto_dismiss: Some(AUTO_DISMISS_MS) }
    }

    /// Whether at `now` the popup has been up for longer than it is to stay.
    pub fn should_dismiss(&self, now: u64) -> (b: bool)
        ensures
            b == self@.due(now),
    {
        match self.auto_dismiss {
            Some(duration) => {
                let elapsed: u64 = if now >= self.shown_at {
                    now - self.shown_at
                } else {
                    0
                };
                elapsed > duration
            },
            None => false,
        }
    }
}

/// The question whether a record is to be deleted.
#[derive(Debug, Clone)]
pub struct ConfirmDialog {
    pub title: String,
    pub message: String,
    pub entity_type: EntityType,
    pub entity_id: Id,
    /// Whether "Yes" has the focus, rather than "No".
    pub yes_focused: bool,
}

/// A confirm dialog, with its texts as sequences of characters.
pub struct DialogView {
    pub title: Seq<char>,
    pub message: Seq<char>,
    pub entity_type: EntityType,
    pub entity_id: Id,
    pub yes_focused: bool,
}

impl View for ConfirmDialog {
    type V = DialogView;

    open spec fn view(&self) -> DialogView {
        DialogView {
            title: self.title@,
            message: self.message@,
            entity_type: self.entity_type,
            entity_id: self.entity_id,
            yes_focused: self.yes_focused,
        }
    }
}

impl DialogView {
    /// The question whether the record `name` is to be deleted, with "No"
    /// in focus.
    pub open spec fn delete(entity_type: EntityType, entity_id: Id, name: Seq<char>) -> DialogView {
        DialogView {
            title: "Delete "@ + entity_type.spec_name()@,
            message: "Are you sure you want to delete \""@ + name
                + "\"?\nThis action cannot be undone."@,
            entity_type,
            entity_id,
            yes_focused: false,
        }
    }

    /// The command that deletes the record the dialog asks about.
    pub open spec fn delete_command(self) -> ApiCommand {
        match self.entity_type {
            EntityType::Client => ApiCommand::DeleteClient(self.entity_id),
            EntityType::Project => ApiCommand::DeleteProject(self.entity_id),
            EntityType::User => ApiCommand::DeleteUser(self.entity_id),
        }
    }
}

impl ConfirmDialog {
    pub fn new_delete(entity_type: EntityType, entity_id: Id, name: &str) -> (dialog: ConfirmDialog)
        ensures
            dialog@ == DialogView::delete(entity_type, entity_id, name@),
    {
        ConfirmDialog {
            title: concat2("Delete ", entity_type.name()),
            message: concat3(
                "Are you sure you want to delete \"",
                name,
                "\"?\nThis action cannot be undone.",
            ),
            entity_type,
            entity_id,
            yes_focused: false,
        }
    }

    /// The command that deletes the record the dialog asks about.
    pub fn delete_command(&self) -> (command: ApiCommand)
        ensures
            command == self@.delete_command(),
    {
        match self.entity_type {
            EntityType::Client => ApiCommand::DeleteClient(self.entity_id),
            EntityType::Project => ApiCommand::DeleteProject(self.entity_id),
            EntityType::User => ApiCommand::DeleteUser(self.entity_id),
        }
    }
}

/// The state of the application.
#[derive(Debug)]
pub struct App {
    pub should_quit: bool,
    pub active_tab: Tab,
    pub input_mode: InputMode,
    pub projects: Vec<ProjectDto>,
    pub clients: Vec<ClientDto>,
    pub users: Vec<UserDto>,
    pub timeline_state: TimelineState,
    /// The background animation chosen.
    pub particle_mode: ParticleMode,
    pub error_popup: Option<ErrorPopup>,
    pub form_state: Option<FormState>,
    pub confirm_dialog: Option<ConfirmDialog>,
    pub logs: Vec<LogEntry>,
    /// Log entries kept; the oldest goes when one more comes in.
    pub max_logs: usize,
    /// Index of the selected line in the lists of clients and users.
    pub list_selected: usize,
    pub api_connected: bool,
    /// When data last came in.
    pub last_refresh: Option<u64>,
    pub is_loading: bool,
    /// Frames drawn; wraps around.
    pub frame_count: u64,
    pub show_help: bool,
}

/// The state of the application, with its texts as sequences of characters.
pub struct AppView {
    pub should_quit: bool,
    pub active_tab: Tab,
    pub input_mode: InputMode,
    pub projects: Seq<ProjectDto>,
    pub clients: Seq<ClientDto>,
    pub users: Seq<UserDto>,
    pub timeline_state: TimelineState,
    pub particle_mode: ParticleMode,
    pub error_popup: Option<PopupView>,
    pub form_state: Option<FormView>,
    pub confirm_dialog: Option<DialogView>,
    pub logs: Seq<LogView>,
    pub max_logs: usize,
    pub list_selected: usize,
    pub api_connected: bool,
    pub last_refresh: Option<u64>,
    pub is_loading: bool,
    pub frame_count: u64,
    pub show_help: bool,
}

/// The views of the entries of a log.
pub open spec fn log_views(logs: Seq<LogEntry>) -> Seq<LogView> {
    logs.map_values(|e: LogEntry| e@)
}

impl View for App {
    type V = AppView;

    open spec fn view(&self) -> AppView {
        AppView {
            should_quit: self.should_quit,
            active_tab: self.active_tab,
            input_mode: self.input_mode,
            projects: self.projects@,
            clients: self.clients@,
            users: self.users@,
            timeline_state: self.timeline_state,
            particle_mode: self.particle_mode,
            error_popup: match self.error_popup {
                Some(popup) => Some(popup@),
                None => None,
            },
            form_state: match self.form_state {
                Some(form) => Some(form@),
                None => None,
            },
            confirm_dialog: match self.confirm_dialog {
                Some(dialog) => Some(dialog@),
                None => None,
            },
            logs: log_views(self.logs@),
            max_logs: self.max_logs,
            list_selected: self.list_selected,
            api_connected: self.api_connected,
            last_refresh: self.last_refresh,
            is_loading: self.is_loading,
            frame_count: self.frame_count,
            show_help: self.show_help,
        }
    }
}

/// A log after one more entry: the entry comes last, and where that makes
/// more entries than are kept, the oldest goes.
pub open spec fn appended(logs: Seq<LogView>, entry: LogView, max_logs: usize) -> Seq<LogView> {
    let all = logs.push(entry);
    if all.len() > max_logs {
        all.drop_first()
    } else {
        all
    }
}

/// The text that says how many records of a kind came in.
pub open spec fn loaded_text(count: nat, what: &str) -> Seq<char> {
    "Loaded "@ + decimal_digits(count) + " "@ + what@
}

/// The text that reports a change of a record, with the beginning of its
/// identifier.
pub open spec fn changed_text(entity: EntityType, change: &str, id: Id) -> Seq<char> {
    entity.spec_name()@ + change@ + crate::models::short_id(id) + ")"@
}

/// The selection in a list of `total` lines after a key press: `j` and
/// the down arrow go one down and from the last line to the first, `k`
/// and the up arrow one up and from the first to the last, `g` goes to
/// the first line and `G` to the last. Nothing moves in an empty list.
pub open spec fn list_selection(selected: usize, total: usize, code: KeyCode) -> usize {
    if total == 0 {
        selected
    } else if code == KeyCode::Char('j') || code == KeyCode::Down {
        if selected < usize::MAX {
            ((selected + 1) % (total as int)) as usize
        } else {
            selected
        }
    } else if code == KeyCode::Char('k') || code == KeyCode::Up {
        if selected > 0 {
            (selected - 1) as usize
        } else {
            (total - 1) as usize
        }
    } else if code == KeyCode::Char('g') {
        0
    } else if code == KeyCode::Char('G') {
        (total - 1) as usize
    } else {
        selected
    }
}

/// The text that says a form's record is on its way.
pub open spec fn progress_text(form_type: FormType) -> &'static str {
    match form_type {
        FormType::CreateClient => "Creating client...",
        FormType::EditClient(_) => "Updating client...",
        FormType::CreateProject => "Creating project...",
        FormType::EditProject(_) => "Updating project...",
        FormType::CreateUser => "Creating user...",
        FormType::EditUser(_) => "Updating user...",
    }
}

impl AppView {
    /// The state can be worked on when the form that is open, if one is,
    /// has its focus on one of its fields.
    pub open spec fn wf(self) -> bool {
        self.form_state is Some ==> self.form_state->0.wf()
    }

    /// The state the application starts in at `now`.
    pub open spec fn initial(now: u64) -> AppView {
        (AppView {
            should_quit: false,
            active_tab: Tab::Timeline,
            input_mode: InputMode::Normal,
            projects: Seq::empty(),
            clients: Seq::empty(),
            users: Seq::empty(),
            timeline_state: TimelineState::spec_initial(),
            particle_mode: ParticleMode::FloatingAsh,
            error_popup: None,
            form_state: None,
            confirm_dialog: None,
            logs: Seq::empty(),
            max_logs: MAX_LOGS,
            list_selected: 0,
            api_connected: false,
            last_refresh: None,
            is_loading: true,
            frame_count: 0,
            show_help: false,
        }).logged(LogLevel::Info, "SWEeM TUI initialized"@, now).logged(
            LogLevel::Info,
            "Connecting to API..."@,
            now,
        )
    }

    pub open spec fn logged(self, level: LogLevel, message: Seq<char>, now: u64) -> AppView {
        AppView {
            logs: appended(self.logs, LogView { timestamp: now, message, level }, self.max_logs),
            ..self
        }
    }

    /// An error is logged and shown in a popup.
    pub open spec fn error_shown(self, title: Seq<char>, message: Seq<char>, now: u64) -> AppView {
        AppView {
            error_popup: Some(
                PopupView { title, message, shown_at: now, auto_dismiss: Some(AUTO_DISMISS_MS) },
            ),
            ..self.logged(LogLevel::Error, title + ": "@ + message, now)
        }
    }

    pub open spec fn error_dismissed(self) -> AppView {
        AppView { error_popup: None, ..self }
    }

    pub open spec fn with_form(self, form: FormView) -> AppView {
        AppView { form_state: Some(form), ..self }
    }

    pub open spec fn form_opened(self, form: FormView) -> AppView {
        AppView { form_state: Some(form), input_mode: InputMode::Editing, ..self }
    }

    pub open spec fn form_closed(self) -> AppView {
        AppView { form_state: None, input_mode: InputMode::Normal, ..self }
    }

    pub open spec fn confirm_opened(self, dialog: DialogView) -> AppView {
        AppView { confirm_dialog: Some(dialog), input_mode: InputMode::Confirming, ..self }
    }

    pub open spec fn confirm_closed(self) -> AppView {
        AppView { confirm_dialog: None, input_mode: InputMode::Normal, ..self }
    }

    pub open spec fn with_timeline(self, timeline_state: TimelineState) -> AppView {
        AppView { timeline_state, ..self }
    }

    /// The form for a new record of the kind the active tab lists.
    pub open spec fn create_form_opened(self, today: Date) -> AppView {
        self.form_opened(
            match self.active_tab {
                Tab::Clients => FormView::blank(FormType::CreateClient),
                Tab::Timeline => FormView::create_project(today),
                Tab::Users => FormView::blank(FormType::CreateUser),
            },
        )
    }

    /// The project that is selected in the timeline, if the selection
    /// points into the list.
    pub open spec fn selected_project(self) -> Option<ProjectDto> {
        match self.timeline_state.selected_project {
            Some(index) => if index < self.projects.len() {
                Some(self.projects[index as int])
            } else {
                None
            },
            None => None,
        }
    }

    /// The form for the selected record of the active tab; nothing
    /// happens where nothing is selected.
    pub open spec fn edit_form_opened(self) -> AppView {
        match self.active_tab {
            Tab::Clients => if self.list_selected < self.clients.len() {
                self.form_opened(FormView::edit_client(self.clients[self.list_selected as int]))
            } else {
                self
            },
            Tab::Timeline => match self.selected_project() {
                Some(project) => self.form_opened(
                    FormView::edit_project(project, self.clients, self.users),
                ),
                None => self,
            },
            Tab::Users => if self.list_selected < self.users.len() {
                self.form_opened(FormView::edit_user(self.users[self.list_selected as int]))
            } else {
                self
            },
        }
    }

    /// The question whether the selected record of the active tab is to
    /// be deleted; nothing happens where nothing is selected.
    pub open spec fn delete_confirm_opened(self) -> AppView {
        match self.active_tab {
            Tab::Clients => if self.list_selected < self.clients.len() {
                let client = self.clients[self.list_selected as int];
                self.confirm_opened(
                    DialogView::delete(
                        EntityType::Client,
                        client.id,
                        crate::models::shown_name(client.name, "Unnamed Client"),
                    ),
                )
            } else {
                self
            },
            Tab::Timeline => match self.selected_project() {
                Some(project) => self.confirm_opened(
                    DialogView::delete(
                        EntityType::Project,
                        project.id,
                        crate::models::shown_name(project.name, "Unnamed Project"),
                    ),
                ),
                None => self,
            },
            Tab::Users => if self.list_selected < self.users.len() {
                let user = self.users[self.list_selected as int];
                self.confirm_opened(
                    DialogView::delete(
                        EntityType::User,
                        user.id,
                        crate::models::shown_name(user.name, "Unnamed User"),
                    ),
                )
            } else {
                self
            },
        }
    }

    /// The timeline jumps to the selected project; a selection that
    /// points past the list counts as none and is left as it is.
    pub open spec fn jumped_to_selected(self, today: Date) -> AppView {
        match self.selected_project() {
            Some(project) => self.with_timeline(
                self.timeline_state.jumped_to(
                    project,
                    self.projects,
                    today,
                    JUMP_VIEWPORT_WIDTH as int,
                ),
            ),
            None => self,
        }
    }

    /// What a key does to the timeline.
    pub open spec fn timeline_key(self, key: KeyEvent, today: Date) -> AppView {
        let amount: int = if key.shift {
            SCROLL_STEP_SHIFT as int
        } else {
            SCROLL_STEP as int
        };
        let state = self.timeline_state;
        let total = self.projects.len() as usize;
        match key.code {
            KeyCode::Left => self.with_timeline(state.scrolled_left(amount)),
            KeyCode::Right => self.with_timeline(state.scrolled_right(amount)),
            KeyCode::Down => self.with_timeline(
                TimelineState {
                    selected_project: crate::timeline::next_selection(
                        state.selected_project,
                        total,
                    ),
                    ..state
                },
            ).jumped_to_selected(today),
            KeyCode::Up => self.with_timeline(
                TimelineState {
                    selected_project: crate::timeline::previous_selection(
                        state.selected_project,
                        total,
                    ),
                    ..state
                },
            ).jumped_to_selected(today),
            KeyCode::Enter => self.jumped_to_selected(today),
            KeyCode::Home => self.with_timeline(state.with_scroll(0)),
            KeyCode::Char(c) => if c == 'h' {
                self.with_timeline(state.scrolled_left(amount))
            } else if c == 'l' {
                self.with_timeline(state.scrolled_right(amount))
            } else if c == 'j' {
                self.with_timeline(
                    TimelineState {
                        selected_project: crate::timeline::next_selection(
                            state.selected_project,
                            total,
                        ),
                        ..state
                    },
                ).jumped_to_selected(today)
            } else if c == 'k' {
                self.with_timeline(
                    TimelineState {
                        selected_project: crate::timeline::previous_selection(
                            state.selected_project,
                            total,
                        ),
                        ..state
                    },
                ).jumped_to_selected(today)
            } else if c == '+' || c == '=' {
                self.with_timeline(state.zoomed_in())
            } else if c == '-' {
                self.with_timeline(state.zoomed_out())
            } else if c == 't' {
                self.with_timeline(
                    state.centered_on_today(self.projects, today, CENTER_VIEWPORT_WIDTH as int),
                )
            } else {
                self
            },
            _ => self,
        }
    }

    /// What a key does to the selection in a list of `total` lines.
    pub open spec fn list_key(self, key: KeyEvent, total: usize) -> AppView {
        AppView { list_selected: list_selection(self.list_selected, total, key.code), ..self }
    }

    /// What a message from the worker does.
    pub open spec fn message_handled(self, message: ApiMessage, now: u64) -> AppView {
        match message {
            ApiMessage::ProjectsLoaded(projects) => {
                let loaded = (AppView {
                    projects: projects@,
                    is_loading: false,
                    last_refresh: Some(now),
                    ..self
                }).logged(LogLevel::Success, loaded_text(projects@.len(), "projects"), now);
                if projects@.len() > 0 {
                    loaded.with_timeline(
                        TimelineState {
                            selected_project: if loaded.timeline_state.selected_project is None {
                                Some(0usize)
                            } else {
                                loaded.timeline_state.selected_project
                            },
                            scroll_offset: 0,
                            ..loaded.timeline_state
                        },
                    )
                } else {
                    loaded
                }
            },
            ApiMessage::ClientsLoaded(clients) => (AppView { clients: clients@, ..self }).logged(
                LogLevel::Success,
                loaded_text(clients@.len(), "clients"),
                now,
            ),
            ApiMessage::UsersLoaded(users) => (AppView { users: users@, ..self }).logged(
                LogLevel::Success,
                loaded_text(users@.len(), "users"),
                now,
            ),
            ApiMessage::Error(error) => (AppView { is_loading: false, ..self }).error_shown(
                "API Error"@,
                error@,
                now,
            ),
            ApiMessage::ConnectionStatus(connected) => {
                let set = AppView { api_connected: connected, ..self };
                if connected && !self.api_connected {
                    set.logged(LogLevel::Success, "Connected to API"@, now)
                } else if !connected && self.api_connected {
                    set.logged(LogLevel::Warning, "Disconnected from API"@, now)
                } else {
                    set
                }
            },
            ApiMessage::Created(entity, id) => self.logged(
                LogLevel::Success,
                changed_text(entity, " created (", id),
                now,
            ).form_closed(),
            ApiMessage::Updated(entity) => self.logged(
                LogLevel::Success,
                entity.spec_name()@ + " updated"@,
                now,
            ).form_closed(),
            ApiMessage::Deleted(entity, id) => self.logged(
                LogLevel::Success,
                changed_text(entity, " deleted (", id),
                now,
            ).confirm_closed(),
        }
    }

    /// What the passing of a frame does: the counters advance, and an
    /// error popup that has been up long enough goes away.
    pub open spec fn ticked(self, now: u64) -> AppView {
        AppView {
            frame_count: if self.frame_count == u64::MAX {
                0
            } else {
                (self.frame_count + 1) as u64
            },
            timeline_state: TimelineState {
                animation_frame: if self.timeline_state.animation_frame == u64::MAX {
                    0
                } else {
                    (self.timeline_state.animation_frame + 1) as u64
                },
                ..self.timeline_state
            },
            error_popup: match self.error_popup {
                Some(popup) => if popup.due(now) {
                    None
                } else {
                    Some(popup)
                },
                None => None,
            },
            ..self
        }
    }

    /// The words of the status bar about when data last came in.
    pub open spec fn refresh_text(self, now: u64) -> Seq<char> {
        match self.last_refresh {
            Some(at) => {
                let secs = (elapsed_ms(at, now) / 1000) as nat;
                if secs < 60 {
                    " ("@ + decimal_digits(secs) + "s ago)"@
                } else {
                    " ("@ + decimal_digits(secs / 60) + "m ago)"@
                }
            },
            None => Seq::empty(),
        }
    }

    /// The text of the status bar.
    pub open spec fn status_text(self, now: u64) -> Seq<char> {
        (if self.api_connected {
            "Connected"@
        } else {
            "Disconnected"@
        }) + (if self.is_loading {
            " [Loading...]"@
        } else {
            Seq::empty()
        }) + self.refresh_text(now) + " | "@ + self.active_tab.spec_name()@
            + " | ?: Help | c: Create | e: Edit | d: Delete | q: Quit"@
    }
}

fn push_log(logs: &mut Vec<LogEntry>, entry: LogEntry, max_logs: usize)
    ensures
        log_views(final(logs)@) == appended(log_views(old(logs)@), entry@, max_logs),
{
    let ghost before = logs@;
    logs.push(entry);
    assert(log_views(logs@) =~= log_views(before).push(entry@));
    if logs.len() > max_logs {
        let ghost full = logs@;
        let _ = logs.remove(0);
        assert(log_views(logs@) =~= log_views(full).drop_first());
    }
}

impl App {
    pub open spec fn wf(self) -> bool {
        self@.wf()
    }

    /// The application as it starts at `now`.
    pub fn new(now: u64) -> (app: App)
        ensures
            app@ == AppView::initial(now),
            app.wf(),
    {
        let mut app = App {
            should_quit: false,
            active_tab: Tab::Timeline,
            input_mode: InputMode::Normal,
            projects: Vec::new(),
            clients: Vec::new(),
            users: Vec::new(),
            timeline_state: TimelineState::default(),
            particle_mode: ParticleMode::FloatingAsh,
            error_popup: None,
            form_state: None,
            confirm_dialog: None,
            logs: Vec::new(),
            max_logs: MAX_LOGS,
            list_selected: 0,
            api_connected: false,
            last_refresh: None,
            is_loading: true,
            frame_count: 0,
            show_help: false,
        };
        assert(log_views(app.logs@) =~= Seq::empty());
        app.log(LogEntry::info("SWEeM TUI initialized".to_owned(), now));
        app.log(LogEntry::info("Connecting to API...".to_owned(), now));
        app
    }

    /// Add a log entry.
    pub fn log(&mut self, entry: LogEntry)
        ensures
            final(self)@ == old(self)@.logged(entry.level, entry.message@, entry.timestamp),
            final(self).form_state == old(self).form_state,
    {
        push_log(&mut self.logs, entry, self.max_logs);
    }

    /// Show an error popup, and log the error.
    pub fn show_error(&mut self, title: String, message: String, now: u64)
        ensures
            final(self)@ == old(self)@.error_shown(title@, message@, now),
            final(self).form_state == old(self).form_state,
    {
        let mut text = concat2(title.as_str(), ": ");
        vstd::string::StringExecFns::append(&mut text, message.as_str());
        self.log(LogEntry::error(text, now));
        self.error_popup = Some(ErrorPopup::new(title, message, now));
    }

    /// Dismiss the error popup.
    pub fn dismiss_error(&mut self)
        ensures
            final(self)@ == old(self)@.error_dismissed(),
            final(self).form_state == old(self).form_state,
    {
        self.error_popup = None;
    }

    /// Open the form for a new record of the kind the active tab lists.
    pub fn open_create_form(&mut self, today: Date)
        ensures
            final(self)@ == old(self)@.create_form_opened(today),
            final(self).wf(),
    {
        let form = match self.active_tab {
            Tab::Clients => FormState::new_create_client(),
            Tab::Timeline => FormState::new_create_project(today),
            Tab::Users => FormState::new_create_user(),
        };
        self.form_state = Some(form);
        self.input_mode = InputMode::Editing;
    }

    /// Open the form for the selected record of the active tab.
    pub fn open_edit_form(&mut self)
        requires
            old(self).wf(),
        ensures
            final(self)@ == old(self)@.edit_form_opened(),
            final(self).wf(),
    {
        let form = match self.active_tab {
            Tab::Clients => {
                if self.list_selected < self.clients.len() {
                    Some(FormState::new_edit_client(&self.clients[self.list_selected]))
                } else {
                    None
                }
            },
            Tab::Timeline => {
                match self.timeline_state.selected_project {
                    Some(index) => {
                        if index < self.projects.len() {
                            Some(
                                FormState::new_edit_project(
                                    &self.projects[index],
                                    self.clients.as_slice(),
                                    self.users.as_slice(),
                                ),
                            )
                        } else {
                            None
                        }
                    },
                    None => None,
                }
            },
            Tab::Users => {
                if self.list_selected < self.users.len() {
                    Some(FormState::new_edit_user(&self.users[self.list_selected]))
                } else {
                    None
                }
            },
        };
        match form {
            Some(form) => {
                self.form_state = Some(form);
                self.input_mode = InputMode::Editing;
            },
            None => {},
        }
    }

    /// Ask whether the selected record of the active tab is to be deleted.
    pub fn open_delete_confirm(&mut self)
        ensures
            final(self)@ == old(self)@.delete_confirm_opened(),
            final(self).form_state == old(self).form_state,
    {
        let dialog = match self.active_tab {
            Tab::Clients => {
                if self.list_selected < self.clients.len() {
                    let client = &self.clients[self.list_selected];
                    Some(
                        ConfirmDialog::new_delete(
                            EntityType::Client,
                            client.id,
                            client.display_name(),
                        ),
                    )
                } else {
                    None
                }
            },
            Tab::Timeline => {
                match self.timeline_state.selected_project {
                    Some(index) => {
                        if index < self.projects.len() {
                            let project = &self.projects[index];
                            Some(
                                ConfirmDialog::new_delete(
                                    EntityType::Project,
                                    project.id,
                                    project.display_name(),
                                ),
                            )
                        } else {
                            None
                        }
                    },
                    None => None,
                }
            },
            Tab::Users => {
                if self.list_selected < self.users.len() {
                    let user = &self.users[self.list_selected];
                    Some(
                        ConfirmDialog::new_delete(EntityType::User, user.id, user.display_name()),
                    )
                } else {
                    None
                }
            },
        };
        match dialog {
            Some(dialog) => {
                self.confirm_dialog = Some(dialog);
                self.input_mode = InputMode::Confirming;
            },
            None => {},
        }
    }

    /// Close the form.
    pub fn close_form(&mut self)
        ensures
            final(self)@ == old(self)@.form_closed(),
            final(self).wf(),
    {
        self.form_state = None;
        self.input_mode = InputMode::Normal;
    }

    /// Close the confirm dialog.
    pub fn close_confirm(&mut self)
        ensures
            final(self)@ == old(self)@.confirm_closed(),
            final(self).form_state == old(self).form_state,
    {
        self.confirm_dialog = None;
        self.input_mode = InputMode::Normal;
    }
}

/// Whether a key dismisses the error popup.
pub open spec fn dismisses_error(code: KeyCode) -> bool {
    code == KeyCode::Esc || code == KeyCode::Enter || code == KeyCode::Char(' ')
}

/// Whether a key closes the help overlay.
pub open spec fn closes_help(code: KeyCode) -> bool {
    code == KeyCode::Esc || code == KeyCode::Char('?') || code == KeyCode::Enter
}

/// What pressing Enter in a form leads to. On "Cancel" the form closes;
/// on a text or a date the focus moves on; on a choice nothing happens;
/// on "Save" the record is checked, and either sent off or shown with
/// what is wrong with it.
pub open spec fn submit_outcome(app: App, now: u64, today: Date) -> (AppView, Option<ApiCommand>) {
    let view = app@;
    match app.form_state {
        None => (view, None),
        Some(form) => {
            let field = form@.current_field();
            if field == FormField::CancelButton {
                (view.form_closed(), None)
            } else if field.spec_is_text_input() || field.spec_is_date_picker() {
                (view.with_form(form@.next_field()), None)
            } else if field != FormField::SubmitButton {
                (view, None)
            } else {
                match form.spec_command(app.clients@, app.users@, today) {
                    Err(complaint) => (view.with_form(form@.with_error(complaint@)), None),
                    Ok(command) => (
                        view.logged(LogLevel::Info, progress_text(form.form_type)@, now),
                        Some(command),
                    ),
                }
            }
        },
    }
}

/// What a key does while a form is open.
pub open spec fn editing_outcome(app: App, key: KeyEvent, now: u64, today: Date) -> (
    AppView,
    Option<ApiCommand>,
) {
    let view = app@;
    match view.form_state {
        None => (AppView { input_mode: InputMode::Normal, ..view }, None),
        Some(form) => match key.code {
            KeyCode::Esc => (view.form_closed(), None),
            KeyCode::Tab => (view.with_form(form.next_field()), None),
            KeyCode::BackTab => (view.with_form(form.prev_field()), None),
            KeyCode::Enter => submit_outcome(app, now, today),
            KeyCode::Backspace => (view.with_form(form.erased()), None),
            KeyCode::Up => (view.with_form(form.arrow_up(today)), None),
            KeyCode::Down => (
                view.with_form(form.arrow_down(view.clients.len(), view.users.len(), today)),
                None,
            ),
            KeyCode::Left => (view.with_form(form.arrow_sideways(false, today)), None),
            KeyCode::Right => (view.with_form(form.arrow_sideways(true, today)), None),
            KeyCode::Char(c) => (view.with_form(form.typed(c)), None),
            _ => (view, None),
        },
    }
}

/// What a key does while a record's deletion is to be confirmed.
pub open spec fn confirming_outcome(view: AppView, key: KeyEvent, now: u64) -> (
    AppView,
    Option<ApiCommand>,
) {
    match view.confirm_dialog {
        None => (AppView { input_mode: InputMode::Normal, ..view }, None),
        Some(dialog) => {
            let confirmed = (
                view.logged(
                    LogLevel::Info,
                    "Deleting "@ + dialog.entity_type.spec_name()@ + "..."@,
                    now,
                ),
                Some(dialog.delete_command()),
            );
            match key.code {
                KeyCode::Esc => (view.confirm_closed(), None),
                KeyCode::Left => (
                    AppView {
                        confirm_dialog: Some(
                            DialogView { yes_focused: !dialog.yes_focused, ..dialog },
                        ),
                        ..view
                    },
                    None,
                ),
                KeyCode::Right => (
                    AppView {
                        confirm_dialog: Some(
                            DialogView { yes_focused: !dialog.yes_focused, ..dialog },
                        ),
                        ..view
                    },
                    None,
                ),
                KeyCode::Tab => (
                    AppView {
                        confirm_dialog: Some(
                            DialogView { yes_focused: !dialog.yes_focused, ..dialog },
                        ),
                        ..view
                    },
                    None,
                ),
                KeyCode::Enter => if dialog.yes_focused {
                    confirmed
                } else {
                    (view.confirm_closed(), None)
                },
                KeyCode::Char(c) => if c == 'n' || c == 'N' {
                    (view.confirm_closed(), None)
                } else if c == 'y' || c == 'Y' {
                    confirmed
                } else {
                    (view, None)
                },
                _ => (view, None),
            }
        },
    }
}

/// What a key does while nothing is open.
pub open spec fn normal_outcome(view: AppView, key: KeyEvent, now: u64, today: Date) -> (
    AppView,
    Option<ApiCommand>,
) {
    let by_tab = (
        match view.active_tab {
            Tab::Timeline => view.timeline_key(key, today),
            Tab::Clients => view.list_key(key, view.clients.len() as usize),
            Tab::Users => view.list_key(key, view.users.len() as usize),
        },
        None,
    );
    match key.code {
        KeyCode::Char(c) => if c == 'q' || c == 'Q' || (c == 'c' && key.control) {
            (AppView { should_quit: true, ..view }, Some(ApiCommand::Shutdown))
        } else if c == '?' {
            (AppView { show_help: true, ..view }, None)
        } else if c == 'p' {
            (
                (AppView { particle_mode: view.particle_mode.spec_next(), ..view }).logged(
                    LogLevel::Info,
                    "Particle mode: "@ + view.particle_mode.spec_next().spec_name()@,
                    now,
                ),
                None,
            )
        } else if c == 'r' {
            (
                (AppView { is_loading: true, ..view }).logged(
                    LogLevel::Info,
                    "Refreshing data..."@,
                    now,
                ),
                Some(ApiCommand::RefreshAll),
            )
        } else if c == 'c' {
            (view.create_form_opened(today), None)
        } else if c == 'e' {
            (view.edit_form_opened(), None)
        } else if c == 'd' {
            (view.delete_confirm_opened(), None)
        } else {
            by_tab
        },
        KeyCode::Tab => (
            AppView { active_tab: view.active_tab.spec_next(), list_selected: 0, ..view },
            None,
        ),
        KeyCode::BackTab => (
            AppView { active_tab: view.active_tab.spec_previous(), list_selected: 0, ..view },
            None,
        ),
        KeyCode::Delete => (view.delete_confirm_opened(), None),
        _ => by_tab,
    }
}

/// What a key does. An error popup takes every key and goes away on
/// some; so does the help overlay; else the input mode decides.
pub open spec fn key_outcome(app: App, key: KeyEvent, now: u64, today: Date) -> (
    AppView,
    Option<ApiCommand>,
) {
    let view = app@;
    if view.error_popup is Some {
        (
            if dismisses_error(key.code) {
                view.error_dismissed()
            } else {
                view
            },
            None,
        )
    } else if view.show_help {
        (
            if closes_help(key.code) {
                AppView { show_help: false, ..view }
            } else {
                view
            },
            None,
        )
    } else {
        match view.input_mode {
            InputMode::Normal => normal_outcome(view, key, now, today),
            InputMode::Editing => editing_outcome(app, key, now, today),
            InputMode::Confirming => confirming_outcome(view, key, now),
        }
    }
}

/// The timeline stays valid: whatever key is pressed, whatever message
/// comes in and however many frames pass, its view does not come to begin
/// before the epoch, and its zoom stays one of the levels.
pub proof fn lemma_timeline_stays_valid(
    app: App,
    key: KeyEvent,
    message: ApiMessage,
    now: u64,
    today: Date,
)
    requires
        app@.timeline_state.wf(),
    ensures
        key_outcome(app, key, now, today).0.timeline_state.wf(),
        app@.message_handled(message, now).timeline_state.wf(),
        app@.ticked(now).timeline_state.wf(),
{
    let view = app@;
    let state = view.timeline_state;
    let total = view.projects.len() as usize;
    let amount: int = if key.shift {
        SCROLL_STEP_SHIFT as int
    } else {
        SCROLL_STEP as int
    };
    let any_project = arbitrary::<ProjectDto>();
    crate::timeline::lemma_operations_keep_view_valid(
        state,
        amount,
        total,
        any_project,
        view.projects,
        today,
        CENTER_VIEWPORT_WIDTH,
    );
    let next = TimelineState {
        selected_project: crate::timeline::next_selection(state.selected_project, total),
        ..state
    };
    let previous = TimelineState {
        selected_project: crate::timeline::previous_selection(state.selected_project, total),
        ..state
    };
    lemma_jump_keeps_view_valid(view, today);
    lemma_jump_keeps_view_valid(view.with_timeline(next), today);
    lemma_jump_keeps_view_valid(view.with_timeline(previous), today);
}

/// Jumping to the selected project keeps a valid view valid.
pub proof fn lemma_jump_keeps_view_valid(view: AppView, today: Date)
    requires
        view.timeline_state.wf(),
    ensures
        view.jumped_to_selected(today).timeline_state.wf(),
{
    match view.selected_project() {
        Some(project) => {
            crate::timeline::lemma_operations_keep_view_valid(
                view.timeline_state,
                0,
                0,
                project,
                view.projects,
                today,
                JUMP_VIEWPORT_WIDTH,
            );
        },
        None => {},
    }
}

impl App {
    /// Take in a message from the worker.
    pub fn handle_api_message(&mut self, message: ApiMessage, now: u64)
        requires
            old(self).wf(),
        ensures
            final(self)@ == old(self)@.message_handled(message, now),
            final(self).wf(),
    {
        match message {
            ApiMessage::ProjectsLoaded(projects) => {
                let count = projects.len();
                self.projects = projects;
                self.is_loading = false;
                self.last_refresh = Some(now);
                self.log(LogEntry::success(loaded("projects", count), now));
                if self.projects.len() > 0 {
                    if self.timeline_state.selected_project.is_none() {
                        self.timeline_state.selected_project = Some(0);
                    }
                    self.auto_center_timeline();
                }
            },
            ApiMessage::ClientsLoaded(clients) => {
                let count = clients.len();
                self.clients = clients;
                self.log(LogEntry::success(loaded("clients", count), now));
            },
            ApiMessage::UsersLoaded(users) => {
                let count = users.len();
                self.users = users;
                self.log(LogEntry::success(loaded("users", count), now));
            },
            ApiMessage::Error(error) => {
                self.is_loading = false;
                self.show_error("API Error".to_owned(), error, now);
            },
            ApiMessage::ConnectionStatus(connected) => {
                let was_connected = self.api_connected;
                self.api_connected = connected;
                if connected && !was_connected {
                    self.log(LogEntry::success("Connected to API".to_owned(), now));
                } else if !connected && was_connected {
                    self.log(LogEntry::warning("Disconnected from API".to_owned(), now));
                }
            },
            ApiMessage::Created(entity_type, id) => {
                self.log(LogEntry::success(changed(entity_type, " created (", id), now));
                self.close_form();
            },
            ApiMessage::Updated(entity_type) => {
                self.log(LogEntry::success(concat2(entity_type.name(), " updated"), now));
                self.close_form();
            },
            ApiMessage::Deleted(entity_type, id) => {
                self.log(LogEntry::success(changed(entity_type, " deleted (", id), now));
                self.close_confirm();
            },
        }
    }

    /// Handle a key press; the command that comes back, if one does, is
    /// for the worker.
    pub fn handle_key(&mut self, key: KeyEvent, now: u64, today: Date) -> (command: Option<
        ApiCommand,
    >)
        requires
            old(self).wf(),
            today.is_valid(),
        ensures
            (final(self)@, command) == key_outcome(*old(self), key, now, today),
            final(self).wf(),
    {
        if self.error_popup.is_some() {
            match key.code {
                KeyCode::Esc | KeyCode::Enter => {
                    self.dismiss_error();
                },
                KeyCode::Char(c) => {
                    if c == ' ' {
                        self.dismiss_error();
                    }
                },
                _ => {},
            }
            return None;
        }
        if self.show_help {
            match key.code {
                KeyCode::Esc | KeyCode::Enter => {
                    self.show_help = false;
                },
                KeyCode::Char(c) => {
                    if c == '?' {
                        self.show_help = false;
                    }
                },
                _ => {},
            }
            return None;
        }
        match self.input_mode {
            InputMode::Normal => self.handle_normal_key(key, now, today),
            InputMode::Editing => self.handle_editing_key(key, now, today),
            InputMode::Confirming => self.handle_confirming_key(key, now),
        }
    }

    /// Handle a key while nothing is open.
    pub fn handle_normal_key(&mut self, key: KeyEvent, now: u64, today: Date) -> (command: Option<
        ApiCommand,
    >)
        requires
            old(self).wf(),
            today.is_valid(),
        ensures
            (final(self)@, command) == normal_outcome(old(self)@, key, now, today),
            final(self).wf(),
    {
        match key.code {
            KeyCode::Char(c) => {
                if c == 'q' || c == 'Q' || (c == 'c' && key.control) {
                    self.should_quit = true;
                    return Some(ApiCommand::Shutdown);
                } else if c == '?' {
                    self.show_help = true;
                    return None;
                } else if c == 'p' {
                    self.particle_mode = self.particle_mode.next();
                    let text = concat2("Particle mode: ", self.particle_mode.name());
                    self.log(LogEntry::info(text, now));
                    return None;
                } else if c == 'r' {
                    self.is_loading = true;
                    self.log(LogEntry::info("Refreshing data...".to_owned(), now));
                    return Some(ApiCommand::RefreshAll);
                } else if c == 'c' {
                    self.open_create_form(today);
                    return None;
                } else if c == 'e' {
                    self.open_edit_form();
                    return None;
                } else if c == 'd' {
                    self.open_delete_confirm();
                    return None;
                }
            },
            KeyCode::Tab => {
                self.active_tab = self.active_tab.next();
                self.list_selected = 0;
                return None;
            },
            KeyCode::BackTab => {
                self.active_tab = self.active_tab.previous();
                self.list_selected = 0;
                return None;
            },
            KeyCode::Delete => {
                self.open_delete_confirm();
                return None;
            },
            _ => {},
        }
        match self.active_tab {
            Tab::Timeline => self.handle_timeline_key(key, today),
            Tab::Clients => {
                let total = self.clients.len();
                self.handle_list_key(key, total);
            },
            Tab::Users => {
                let total = self.users.len();
                self.handle_list_key(key, total);
            },
        }
        None
    }

    /// Handle a key while a form is open.
    pub fn handle_editing_key(&mut self, key: KeyEvent, now: u64, today: Date) -> (command: Option<
        ApiCommand,
    >)
        requires
            old(self).wf(),
            today.is_valid(),
        ensures
            (final(self)@, command) == editing_outcome(*old(self), key, now, today),
            final(self).wf(),
    {
        if self.form_state.is_none() {
            self.input_mode = InputMode::Normal;
            return None;
        }
        let clients = self.clients.len();
        let users = self.users.len();
        match key.code {
            KeyCode::Esc => {
                self.close_form();
            },
            KeyCode::Enter => {
                return self.handle_form_submit(now, today);
            },
            _ => {
                match &mut self.form_state {
                    Some(form) => {
                        match key.code {
                            KeyCode::Tab => form.next_field(),
                            KeyCode::BackTab => form.prev_field(),
                            KeyCode::Backspace => form.handle_backspace(),
                            KeyCode::Up => form.arrow_up(today),
                            KeyCode::Down => form.arrow_down(clients, users, today),
                            KeyCode::Left => form.arrow_sideways(false, today),
                            KeyCode::Right => form.arrow_sideways(true, today),
                            KeyCode::Char(c) => form.handle_char(c),
                            _ => {},
                        }
                    },
                    None => {},
                }
            },
        }
        None
    }

    /// Handle Enter in a form.
    pub fn handle_form_submit(&mut self, now: u64, today: Date) -> (command: Option<ApiCommand>)
        requires
            old(self).wf(),
        ensures
            (final(self)@, command) == submit_outcome(*old(self), now, today),
            final(self).wf(),
    {
        let (field, form_type) = match &self.form_state {
            Some(form) => (form.current_field(), form.form_type),
            None => { return None; },
        };
        if field == FormField::CancelButton {
            self.close_form();
            return None;
        }
        if field.is_text_input() || field.is_date_picker() {
            match &mut self.form_state {
                Some(form) => form.next_field(),
                None => {},
            }
            return None;
        }
        if field != FormField::SubmitButton {
            return None;
        }
        let outcome = match &self.form_state {
            Some(form) => form.command(self.clients.as_slice(), self.users.as_slice(), today),
            None => { return None; },
        };
        match outcome {
            Err(complaint) => {
                match &mut self.form_state {
                    Some(form) => form.set_error(complaint),
                    None => {},
                }
                None
            },
            Ok(command) => {
                self.log(LogEntry::info(progress(form_type).to_owned(), now));
                Some(command)
            },
        }
    }

    /// Handle a key while a deletion is to be confirmed.
    pub fn handle_confirming_key(&mut self, key: KeyEvent, now: u64) -> (command: Option<
        ApiCommand,
    >)
        requires
            old(self).wf(),
        ensures
            (final(self)@, command) == confirming_outcome(old(self)@, key, now),
            final(self).wf(),
    {
        let (yes_focused, entity_type, delete) = match &self.confirm_dialog {
            Some(dialog) => (dialog.yes_focused, dialog.entity_type, dialog.delete_command()),
            None => {
                self.input_mode = InputMode::Normal;
                return None;
            },
        };
        let confirm = match key.code {
            KeyCode::Esc => {
                self.close_confirm();
                false
            },
            KeyCode::Left | KeyCode::Right | KeyCode::Tab => {
                match &mut self.confirm_dialog {
                    Some(dialog) => {
                        dialog.yes_focused = !yes_focused;
                    },
                    None => {},
                }
                false
            },
            KeyCode::Enter => {
                if yes_focused {
                    true
                } else {
                    self.close_confirm();
                    false
                }
            },
            KeyCode::Char(c) => {
                if c == 'n' || c == 'N' {
                    self.close_confirm();
                    false
                } else {
                    c == 'y' || c == 'Y'
                }
            },
            _ => false,
        };
        if confirm {
            self.log(LogEntry::info(concat3("Deleting ", entity_type.name(), "..."), now));
            Some(delete)
        } else {
            None
        }
    }

    /// Handle a key on the timeline.
    pub fn handle_timeline_key(&mut self, key: KeyEvent, today: Date)
        requires
            today.is_valid(),
        ensures
            final(self)@ == old(self)@.timeline_key(key, today),
            final(self).form_state == old(self).form_state,
    {
        let amount: i64 = if key.shift {
            SCROLL_STEP_SHIFT
        } else {
            SCROLL_STEP
        };
        let total = self.projects.len();
        match key.code {
            KeyCode::Left => self.timeline_state.scroll_left(amount),
            KeyCode::Right => self.timeline_state.scroll_right(amount),
            KeyCode::Down => {
                self.timeline_state.select_next(total);
                self.jump_to_selected_project(today);
            },
            KeyCode::Up => {
                self.timeline_state.select_previous(total);
                self.jump_to_selected_project(today);
            },
            KeyCode::Enter => self.jump_to_selected_project(today),
            KeyCode::Home => self.timeline_state.scroll_to_start(),
            KeyCode::Char(c) => {
                if c == 'h' {
                    self.timeline_state.scroll_left(amount);
                } else if c == 'l' {
                    self.timeline_state.scroll_right(amount);
                } else if c == 'j' {
                    self.timeline_state.select_next(total);
                    self.jump_to_selected_project(today);
                } else if c == 'k' {
                    self.timeline_state.select_previous(total);
                    self.jump_to_selected_project(today);
                } else if c == '+' || c == '=' {
                    self.timeline_state.zoom_in();
                } else if c == '-' {
                    self.timeline_state.zoom_out();
                } else if c == 't' {
                    self.timeline_state.center_on_today(
                        self.projects.as_slice(),
                        today,
                        CENTER_VIEWPORT_WIDTH,
                    );
                }
            },
            _ => {},
        }
    }

    /// Jump the timeline to the selected project. A selection that
    /// points past the end of the list is passed over, not cleared.
    pub fn jump_to_selected_project(&mut self, today: Date)
        requires
            today.is_valid(),
        ensures
            final(self)@ == old(self)@.jumped_to_selected(today),
            final(self).form_state == old(self).form_state,
    {
        match self.timeline_state.selected_project {
            Some(index) => {
                if index < self.projects.len() {
                    self.timeline_state.jump_to_project(
                        &self.projects[index],
                        self.projects.as_slice(),
                        today,
                        JUMP_VIEWPORT_WIDTH,
                    );
                }
            },
            None => {},
        }
    }

    /// Show the timeline from its start, where the earliest project is.
    pub fn auto_center_timeline(&mut self)
        ensures
            final(self)@ == (if old(self)@.projects.len() == 0 {
                old(self)@
            } else {
                old(self)@.with_timeline(old(self).timeline_state.with_scroll(0))
            }),
            final(self).form_state == old(self).form_state,
    {
        if self.projects.len() == 0 {
            return ;
        }
        self.timeline_state.scroll_offset = 0;
    }

    /// Handle a key on a list of `total` lines.
    pub fn handle_list_key(&mut self, key: KeyEvent, total: usize)
        ensures
            final(self)@ == old(self)@.list_key(key, total),
            final(self).form_state == old(self).form_state,
    {
        if total == 0 {
            return ;
        }
        match key.code {
            KeyCode::Down => {
                self.list_selected = step_down(self.list_selected, total);
            },
            KeyCode::Up => {
                self.list_selected = step_up(self.list_selected, total);
            },
            KeyCode::Char(c) => {
                if c == 'j' {
                    self.list_selected = step_down(self.list_selected, total);
                } else if c == 'k' {
                    self.list_selected = step_up(self.list_selected, total);
                } else if c == 'g' {
                    self.list_selected = 0;
                } else if c == 'G' {
                    self.list_selected = total - 1;
                }
            },
            _ => {},
        }
    }

    /// Advance by one frame at `now`.
    pub fn tick(&mut self, now: u64)
        ensures
            final(self)@ == old(self)@.ticked(now),
            final(self).form_state == old(self).form_state,
    {
        self.frame_count = if self.frame_count == u64::MAX {
            0
        } else {
            self.frame_count + 1
        };
        self.timeline_state.tick();
        let due = match &self.error_popup {
            Some(popup) => popup.should_dismiss(now),
            None => false,
        };
        if due {
            self.error_popup = None;
        }
    }

    /// The text of the status bar at `now`.
    pub fn status_text(&self, now: u64) -> (text: String)
        ensures
            text@ == self@.status_text(now),
    {
        let connection = if self.api_connected {
            "Connected"
        } else {
            "Disconnected"
        };
        let loading = if self.is_loading {
            " [Loading...]"
        } else {
            ""
        };
        proof {
            reveal_strlit("");
        }
        let mut text = concat2(connection, loading);
        assert(text@ =~= connection@ + (if self.is_loading {
            " [Loading...]"@
        } else {
            Seq::empty()
        }));
        match self.last_refresh {
            Some(at) => {
                let elapsed: u64 = if now >= at {
                    now - at
                } else {
                    0
                };
                let secs: u64 = elapsed / 1000;
                vstd::string::StringExecFns::append(&mut text, " (");
                if secs < 60 {
                    let count = decimal(secs);
                    vstd::string::StringExecFns::append(&mut text, count.as_str());
                    vstd::string::StringExecFns::append(&mut text, "s ago)");
                } else {
                    let count = decimal(secs / 60);
                    vstd::string::StringExecFns::append(&mut text, count.as_str());
                    vstd::string::StringExecFns::append(&mut text, "m ago)");
                }
            },
            None => {},
        }
        vstd::string::StringExecFns::append(&mut text, " | ");
        vstd::string::StringExecFns::append(&mut text, self.active_tab.name());
        vstd::string::StringExecFns::append(
            &mut text,
            " | ?: Help | c: Create | e: Edit | d: Delete | q: Quit",
        );
        assert(text@ =~= self@.status_text(now));
        text
    }
}

fn step_down(selected: usize, total: usize) -> (next: usize)
    requires
        total > 0,
    ensures
        next == list_selection(selected, total, KeyCode::Down),
        next == list_selection(selected, total, KeyCode::Char('j')),
{
    if selected < usize::MAX {
        (selected + 1) % total
    } else {
        selected
    }
}

fn step_up(selected: usize, total: usize) -> (next: usize)
    requires
        total > 0,
    ensures
        next == list_selection(selected, total, KeyCode::Up),
        next == list_selection(selected, total, KeyCode::Char('k')),
{
    if selected > 0 {
        selected - 1
    } else {
        total - 1
    }
}

fn loaded(what: &str, count: usize) -> (text: String)
    ensures
        text@ == loaded_text(count as nat, what),
{
    let digits = decimal(count as u64);
    let mut text = concat3("Loaded ", digits.as_str(), " ");
    vstd::string::StringExecFns::append(&mut text, what);
    text
}

fn changed(entity: EntityType, change: &str, id: Id) -> (text: String)
    ensures
        text@ == changed_text(entity, change, id),
{
    let short = crate::models::short_id_text(id);
    let mut text = concat3(entity.name(), change, short.as_str());
    vstd::string::StringExecFns::append(&mut text, ")");
    text
}

fn progress(form_type: FormType) -> (text: &'static str)
    ensures
        text == progress_text(form_type),
{
    match form_type {
        FormType::CreateClient => "Creating client...",
        FormType::EditClient(_) => "Updating client...",
        FormType::CreateProject => "Creating project...",
        FormType::EditProject(_) => "Updating project...",
        FormType::CreateUser => "Creating user...",
        FormType::EditUser(_) => "Updating user...",
    }
}

} // verus!
