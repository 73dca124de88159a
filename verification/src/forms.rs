//! The forms in which records are created and edited: their fields, the
//! focus that moves through them, and the records they build.

use vstd::prelude::*;
use crate::dates::{format_ymd, formatted_day, parsed_date, Date};
use crate::api::ApiCommand;
use crate::models::{
    client_verdict,
    default_end,
    default_end_date,
    edited_user_verdict,
    new_user_verdict,
    project_verdict,
    ClientDto,
    CreateClientDto,
    CreateProjectDto,
    CreateUserDto,
    Id,
    ProjectDto,
    Role,
    UpdateClientDto,
    UpdateProjectDto,
    UpdateUserDto,
    UserDto,
    NIL_ID,
};
use crate::text::{pop_char, push_char};

verus! {

/// Single days a date field moves with the left and right arrow keys.
pub const WEEK_STEPS: usize = 7;

/// What a form is for.
#[derive(Debug, Clone, Copy, PartialEq, Eq, Structural)]
pub enum FormType {
    CreateClient,
    EditClient(Id),
    CreateProject,
    EditProject(Id),
    CreateUser,
    EditUser(Id),
}

/// The fields and buttons of the forms.
#[derive(Debug, Clone, Copy, PartialEq, Eq, Structural)]
pub enum FormField {
    ClientName,
    ClientAddress,
    ProjectName,
    ProjectClient,
    ProjectManager,
    ProjectStartDate,
    ProjectEndDate,
    UserName,
    UserLogin,
    UserPassword,
    UserRole,
    SubmitButton,
    CancelButton,
}

/// The fields of the client form, in the order of the focus.
pub open spec fn client_field_list() -> Seq<FormField> {
    seq![
        FormField::ClientName,
        FormField::ClientAddress,
        FormField::SubmitButton,
        FormField::CancelButton,
    ]
}

/// The fields of the project form, in the order of the focus.
pub open spec fn project_field_list() -> Seq<FormField> {
    seq![
        FormField::ProjectName,
        FormField::ProjectClient,
        FormField::ProjectManager,
        FormField::ProjectStartDate,
        FormField::ProjectEndDate,
        FormField::SubmitButton,
        FormField::CancelButton,
    ]
}

/// The fields of the user form, in the order of the focus.
pub open spec fn user_field_list() -> Seq<FormField> {
    seq![
        FormField::UserName,
        FormField::UserLogin,
        FormField::UserPassword,
        FormField::UserRole,
        FormField::SubmitButton,
        FormField::CancelButton,
    ]
}

impl FormField {
    pub open spec fn spec_label(self) -> &'static str {
        match self {
            FormField::ClientName => "Name",
            FormField::ClientAddress => "Address",
            FormField::ProjectName => "Name",
            FormField::ProjectClient => "Client",
            FormField::ProjectManager => "Manager",
            FormField::ProjectStartDate => "Start Date",
            FormField::ProjectEndDate => "End Date",
            FormField::UserName => "Name",
            FormField::UserLogin => "Login",
            FormField::UserPassword => "Password",
            FormField::UserRole => "Role",
            FormField::SubmitButton => "Save",
            FormField::CancelButton => "Cancel",
        }
    }

    pub open spec fn spec_is_text_input(self) -> bool {
        self == FormField::ClientName || self == FormField::ClientAddress || self
            == FormField::ProjectName || self == FormField::UserName || self
            == FormField::UserLogin || self == FormField::UserPassword
    }

    pub open spec fn spec_is_date_picker(self) -> bool {
        self == FormField::ProjectStartDate || self == FormField::ProjectEndDate
    }

    pub open spec fn spec_is_selector(self) -> bool {
        self == FormField::ProjectClient || self == FormField::ProjectManager || self
            == FormField::UserRole
    }

    pub open spec fn spec_is_button(self) -> bool {
        self == FormField::SubmitButton || self == FormField::CancelButton
    }

    /// All fields of the client form.
    pub fn client_fields() -> (fields: &'static [FormField])
        ensures
            fields@ == client_field_list(),
    {
        &[
            FormField::ClientName,
            FormField::ClientAddress,
            FormField::SubmitButton,
            FormField::CancelButton,
        ]
    }

    /// All fields of the project form.
    pub fn project_fields() -> (fields: &'static [FormField])
        ensures
            fields@ == project_field_list(),
    {
        &[
            FormField::ProjectName,
            FormField::ProjectClient,
            FormField::ProjectManager,
            FormField::ProjectStartDate,
            FormField::ProjectEndDate,
            FormField::SubmitButton,
            FormField::CancelButton,
        ]
    }

    /// All fields of the user form.
    pub fn user_fields() -> (fields: &'static [FormField])
        ensures
            fields@ == user_field_list(),
    {
        &[
            FormField::UserName,
            FormField::UserLogin,
            FormField::UserPassword,
            FormField::UserRole,
            FormField::SubmitButton,
            FormField::CancelButton,
        ]
    }

    /// The label shown for the field.
    pub fn label(&self) -> (label: &'static str)
        ensures
            label == self.spec_label(),
    {
        match self {
            FormField::ClientName => "Name",
            FormField::ClientAddress => "Address",
            FormField::ProjectName => "Name",
            FormField::ProjectClient => "Client",
            FormField::ProjectManager => "Manager",
            FormField::ProjectStartDate => "Start Date",
            FormField::ProjectEndDate => "End Date",
            FormField::UserName => "Name",
            FormField::UserLogin => "Login",
            FormField::UserPassword => "Password",
            FormField::UserRole => "Role",
            FormField::SubmitButton => "Save",
            FormField::CancelButton => "Cancel",
        }
    }

    /// Whether text is typed into the field.
    pub fn is_text_input(&self) -> (b: bool)
        ensures
            b == self.spec_is_text_input(),
    {
        match self {
            FormField::ClientName
            | FormField::ClientAddress
            | FormField::ProjectName
            | FormField::UserName
            | FormField::UserLogin
            | FormField::UserPassword => true,
            _ => false,
        }
    }

    /// Whether the field holds a date that the arrow keys change.
    pub fn is_date_picker(&self) -> (b: bool)
        ensures
            b == self.spec_is_date_picker(),
    {
        match self {
            FormField::ProjectStartDate | FormField::ProjectEndDate => true,
            _ => false,
        }
    }

    /// Whether the field chooses from a list.
    pub fn is_selector(&self) -> (b: bool)
        ensures
            b == self.spec_is_selector(),
    {
        match self {
            FormField::ProjectClient | FormField::ProjectManager | FormField::UserRole => true,
            _ => false,
        }
    }

    /// Whether this is a button.
    pub fn is_button(&self) -> (b: bool)
        ensures
            b == self.spec_is_button(),
    {
        match self {
            FormField::SubmitButton | FormField::CancelButton => true,
            _ => false,
        }
    }
}

/// Every field is of exactly one kind.
pub proof fn lemma_field_kinds(field: FormField)
    ensures
        field.spec_is_text_input() || field.spec_is_date_picker() || field.spec_is_selector()
            || field.spec_is_button(),
        !(field.spec_is_text_input() && field.spec_is_date_picker()),
        !(field.spec_is_text_input() && field.spec_is_selector()),
        !(field.spec_is_text_input() && field.spec_is_button()),
        !(field.spec_is_date_picker() && field.spec_is_selector()),
        !(field.spec_is_date_picker() && field.spec_is_button()),
        !(field.spec_is_selector() && field.spec_is_button()),
{
}

/// The state of the form that is open.
#[derive(Debug, Clone)]
pub struct FormState {
    pub form_type: FormType,
    /// Index into `fields` of the field that has the focus.
    pub focused_field: usize,
    pub fields: Vec<FormField>,
    /// What the last check of the form found wrong.
    pub error: Option<String>,
    pub client_name: String,
    pub client_address: String,
    pub project_name: String,
    pub project_client_idx: usize,
    pub project_manager_idx: usize,
    /// Start date of the project, in the form `YYYY-MM-DD`.
    pub project_start_date: String,
    /// Planned end date of the project, in the form `YYYY-MM-DD`.
    pub project_end_date: String,
    pub user_name: String,
    pub user_login: String,
    pub user_password: String,
    pub user_role: Role,
    pub dropdown_open: bool,
}

/// What a form holds, with its texts as sequences of characters.
pub struct FormView {
    pub form_type: FormType,
    pub focused_field: usize,
    pub fields: Seq<FormField>,
    pub error: Option<Seq<char>>,
    pub client_name: Seq<char>,
    pub client_address: Seq<char>,
    pub project_name: Seq<char>,
    pub project_client_idx: usize,
    pub project_manager_idx: usize,
    pub project_start_date: Seq<char>,
    pub project_end_date: Seq<char>,
    pub user_name: Seq<char>,
    pub user_login: Seq<char>,
    pub user_password: Seq<char>,
    pub user_role: Role,
    pub dropdown_open: bool,
}

/// The view of an optional text.
pub open spec fn text_view(text: Option<String>) -> Option<Seq<char>> {
    match text {
        Some(s) => Some(s@),
        None => None,
    }
}

impl View for FormState {
    type V = FormView;

    open spec fn view(&self) -> FormView {
        FormView {
            form_type: self.form_type,
            focused_field: self.focused_field,
            fields: self.fields@,
            error: text_view(self.error),
            client_name: self.client_name@,
            client_address: self.client_address@,
            project_name: self.project_name@,
            project_client_idx: self.project_client_idx,
            project_manager_idx: self.project_manager_idx,
            project_start_date: self.project_start_date@,
            project_end_date: self.project_end_date@,
            user_name: self.user_name@,
            user_login: self.user_login@,
            user_password: self.user_password@,
            user_role: self.user_role,
            dropdown_open: self.dropdown_open,
        }
    }
}

/// The fields a form of a given type has.
pub open spec fn fields_of(form_type: FormType) -> Seq<FormField> {
    match form_type {
        FormType::CreateClient => client_field_list(),
        FormType::EditClient(_) => client_field_list(),
        FormType::CreateProject => project_field_list(),
        FormType::EditProject(_) => project_field_list(),
        FormType::CreateUser => user_field_list(),
        FormType::EditUser(_) => user_field_list(),
    }
}

/// The text of a date: its form `YYYY-MM-DD`, or nothing for a day the
/// calendar cannot name.
pub open spec fn date_text(date: Date) -> Seq<char> {
    if date.is_valid() {
        formatted_day(date.days as int)
    } else {
        Seq::empty()
    }
}

/// The date a field is set to when it is moved by `days` days. A text
/// that names no date is replaced by today; a date at the end of the
/// calendar stays where it is.
pub open spec fn shifted_date(text: Seq<char>, days: int, today: Date) -> Date {
    match parsed_date(text) {
        Some(date) => match date.spec_plus_days(days) {
            Some(moved) => moved,
            None => date,
        },
        None => today,
    }
}

/// The text of a date field after it is moved by `days` days.
pub open spec fn shifted_date_text(text: Seq<char>, days: int, today: Date) -> Seq<char> {
    formatted_day(shifted_date(text, days, today).days as int)
}

/// The text of a date field after `count` moves of `days` days each.
pub open spec fn shifted_date_text_times(text: Seq<char>, days: int, today: Date, count: nat) -> Seq<
    char,
>
    decreases count,
{
    if count == 0 {
        text
    } else {
        shifted_date_text(shifted_date_text_times(text, days, today, (count - 1) as nat), days, today)
    }
}

/// The index of the first record with identifier `id`, or 0 where there is none.
pub open spec fn index_of_id(ids: Seq<Id>, id: Id) -> int
    decreases ids.len(),
{
    if ids.len() == 0 {
        0
    } else if ids[0] == id {
        0
    } else if ids.drop_first().contains(id) {
        1 + index_of_id(ids.drop_first(), id)
    } else {
        0
    }
}

/// The identifiers of a list of clients.
pub open spec fn client_ids(clients: Seq<ClientDto>) -> Seq<Id> {
    clients.map_values(|c: ClientDto| c.id)
}

/// The identifiers of a list of users.
pub open spec fn user_ids(users: Seq<UserDto>) -> Seq<Id> {
    users.map_values(|u: UserDto| u.id)
}

/// The identifier at `index` of a list, or the nil identifier past its end.
pub open spec fn id_at(ids: Seq<Id>, index: usize) -> Id {
    if index < ids.len() {
        ids[index as int]
    } else {
        NIL_ID
    }
}

impl FormView {
    /// A form can be worked on when the focus is on one of its fields.
    pub open spec fn wf(self) -> bool {
        self.focused_field < self.fields.len() <= usize::MAX
    }

    /// A form as it is opened: the focus on the first field, all texts
    /// empty, the role that of a manager.
    pub open spec fn blank(form_type: FormType) -> FormView {
        FormView {
            form_type,
            focused_field: 0,
            fields: fields_of(form_type),
            error: None,
            client_name: Seq::empty(),
            client_address: Seq::empty(),
            project_name: Seq::empty(),
            project_client_idx: 0,
            project_manager_idx: 0,
            project_start_date: Seq::empty(),
            project_end_date: Seq::empty(),
            user_name: Seq::empty(),
            user_login: Seq::empty(),
            user_password: Seq::empty(),
            user_role: Role::Manager,
            dropdown_open: false,
        }
    }

    /// The form that opens for editing `client`.
    pub open spec fn edit_client(client: ClientDto) -> FormView {
        FormView {
            client_name: text_view(client.name).unwrap_or(Seq::empty()),
            client_address: text_view(client.address).unwrap_or(Seq::empty()),
            ..FormView::blank(FormType::EditClient(client.id))
        }
    }

    /// The form that opens for a new project on `today`.
    pub open spec fn create_project(today: Date) -> FormView {
        FormView {
            project_start_date: date_text(today),
            project_end_date: date_text(default_end_date(today)),
            ..FormView::blank(FormType::CreateProject)
        }
    }

    /// The form that opens for editing `project`.
    pub open spec fn edit_project(
        project: ProjectDto,
        clients: Seq<ClientDto>,
        users: Seq<UserDto>,
    ) -> FormView {
        FormView {
            project_name: text_view(project.name).unwrap_or(Seq::empty()),
            project_client_idx: index_of_id(client_ids(clients), project.client_id) as usize,
            project_manager_idx: index_of_id(user_ids(users), project.manager_id) as usize,
            project_start_date: date_text(project.start_date),
            project_end_date: date_text(project.planned_end_date),
            ..FormView::blank(FormType::EditProject(project.id))
        }
    }

    /// The form that opens for editing `user`.
    pub open spec fn edit_user(user: UserDto) -> FormView {
        FormView {
            user_name: text_view(user.name).unwrap_or(Seq::empty()),
            user_login: text_view(user.login).unwrap_or(Seq::empty()),
            user_role: user.role,
            ..FormView::blank(FormType::EditUser(user.id))
        }
    }

    pub open spec fn current_field(self) -> FormField {
        self.fields[self.focused_field as int]
    }

    /// The form after the up arrow: a date moves one day on, a choice
    /// moves one up in its list but not past the first, the role changes.
    pub open spec fn arrow_up(self, today: Date) -> FormView {
        match self.current_field() {
            FormField::ProjectStartDate => self.date_moved(1, today),
            FormField::ProjectEndDate => self.date_moved(1, today),
            FormField::ProjectClient => if self.project_client_idx > 0 {
                FormView { project_client_idx: (self.project_client_idx - 1) as usize, ..self }
            } else {
                self
            },
            FormField::ProjectManager => if self.project_manager_idx > 0 {
                FormView { project_manager_idx: (self.project_manager_idx - 1) as usize, ..self }
            } else {
                self
            },
            FormField::UserRole => FormView { user_role: self.user_role.spec_next(), ..self },
            _ => self,
        }
    }

    /// The form after the down arrow: a date moves one day back, a choice
    /// moves one down in its list but not past the last, the role changes.
    pub open spec fn arrow_down(self, clients: nat, users: nat, today: Date) -> FormView {
        match self.current_field() {
            FormField::ProjectStartDate => self.date_moved(-1, today),
            FormField::ProjectEndDate => self.date_moved(-1, today),
            FormField::ProjectClient => if self.project_client_idx + 1 < clients {
                FormView { project_client_idx: (self.project_client_idx + 1) as usize, ..self }
            } else {
                self
            },
            FormField::ProjectManager => if self.project_manager_idx + 1 < users {
                FormView { project_manager_idx: (self.project_manager_idx + 1) as usize, ..self }
            } else {
                self
            },
            FormField::UserRole => FormView { user_role: self.user_role.spec_next(), ..self },
            _ => self,
        }
    }

    /// The form after the left or right arrow: a date moves a week, one
    /// day at a time; nothing else changes.
    pub open spec fn arrow_sideways(self, forward: bool, today: Date) -> FormView {
        if self.current_field().spec_is_date_picker() {
            self.date_moved_times(
                if forward {
                    1
                } else {
                    -1
                },
                today,
                WEEK_STEPS as nat,
            )
        } else {
            self
        }
    }

    /// The form with a complaint shown.
    pub open spec fn with_error(self, complaint: Seq<char>) -> FormView {
        FormView { error: Some(complaint), ..self }
    }

    /// The focus on the next field, from the last to the first.
    pub open spec fn next_field(self) -> FormView {
        FormView {
            focused_field: if self.focused_field + 1 < self.fields.len() {
                (self.focused_field + 1) as usize
            } else {
                0
            },
            dropdown_open: false,
            ..self
        }
    }

    /// The focus on the field before, from the first to the last.
    pub open spec fn prev_field(self) -> FormView {
        FormView {
            focused_field: if self.focused_field > 0 {
                (self.focused_field - 1) as usize
            } else {
                (self.fields.len() - 1) as usize
            },
            dropdown_open: false,
            ..self
        }
    }

    /// The text of the field that has the focus, if text is typed into it.
    pub open spec fn current_text(self) -> Option<Seq<char>> {
        match self.current_field() {
            FormField::ClientName => Some(self.client_name),
            FormField::ClientAddress => Some(self.client_address),
            FormField::ProjectName => Some(self.project_name),
            FormField::UserName => Some(self.user_name),
            FormField::UserLogin => Some(self.user_login),
            FormField::UserPassword => Some(self.user_password),
            _ => None,
        }
    }

    /// The form with another text in the field that has the focus; the
    /// form as it is where no text is typed into that field.
    pub open spec fn with_current_text(self, text: Seq<char>) -> FormView {
        match self.current_field() {
            FormField::ClientName => FormView { client_name: text, ..self },
            FormField::ClientAddress => FormView { client_address: text, ..self },
            FormField::ProjectName => FormView { project_name: text, ..self },
            FormField::UserName => FormView { user_name: text, ..self },
            FormField::UserLogin => FormView { user_login: text, ..self },
            FormField::UserPassword => FormView { user_password: text, ..self },
            _ => self,
        }
    }

    /// The form after a character is typed.
    pub open spec fn typed(self, c: char) -> FormView {
        match self.current_text() {
            Some(text) => self.with_current_text(text.push(c)),
            None => self,
        }
    }

    /// The form after the last character is taken back.
    pub open spec fn erased(self) -> FormView {
        match self.current_text() {
            Some(text) => if text.len() > 0 {
                self.with_current_text(text.drop_last())
            } else {
                self
            },
            None => self,
        }
    }

    /// The form after the date that has the focus is moved by `days` days.
    pub open spec fn date_moved(self, days: int, today: Date) -> FormView {
        match self.current_field() {
            FormField::ProjectStartDate => FormView {
                project_start_date: shifted_date_text(self.project_start_date, days, today),
                ..self
            },
            FormField::ProjectEndDate => FormView {
                project_end_date: shifted_date_text(self.project_end_date, days, today),
                ..self
            },
            _ => self,
        }
    }

    /// The form after `count` moves of the date that has the focus.
    pub open spec fn date_moved_times(self, days: int, today: Date, count: nat) -> FormView
        decreases count,
    {
        if count == 0 {
            self
        } else {
            self.date_moved_times(days, today, (count - 1) as nat).date_moved(days, today)
        }
    }
}

/// The address a record takes from a form: none where the field is empty.
pub open spec fn optional_text(text: String) -> Option<String> {
    if text@.len() == 0 {
        None
    } else {
        Some(text)
    }
}

fn optional(text: &String) -> (r: Option<String>)
    ensures
        r == optional_text(*text),
{
    if text.as_str().is_empty() {
        None
    } else {
        Some(text.clone())
    }
}

/// The text of a date, or nothing for a day outside the calendar.
pub fn text_of_date(date: Date) -> (text: String)
    ensures
        text@ == date_text(date),
{
    if date.in_range() {
        format_ymd(date)
    } else {
        String::new()
    }
}

/// The date a date field moves to: `parsed` is what its text says.
pub fn shift_date(parsed: Option<Date>, days: i64, today: Date) -> (date: Date)
    ensures
        date == (match parsed {
            Some(d) => match d.spec_plus_days(days as int) {
                Some(moved) => moved,
                None => d,
            },
            None => today,
        }),
        (today.is_valid() && (parsed is Some ==> parsed->0.is_valid())) ==> date.is_valid(),
{
    match parsed {
        Some(d) => match d.plus_days(days) {
            Some(moved) => moved,
            None => d,
        },
        None => today,
    }
}

/// The start and the planned end of a project, from what the two date
/// fields of its form say: a start that names no date is today, an end
/// that names none is the default end for the start.
pub fn project_dates(start: Option<Date>, end: Option<Date>, today: Date) -> (dates: (Date, Date))
    ensures
        dates.0 == (match start {
            Some(date) => date,
            None => today,
        }),
        dates.1 == (match end {
            Some(date) => date,
            None => default_end_date(dates.0),
        }),
{
    let start_date = match start {
        Some(date) => date,
        None => today,
    };
    let end_date = match end {
        Some(date) => date,
        None => default_end(start_date),
    };
    (start_date, end_date)
}

/// Add days to a date in the form `YYYY-MM-DD`. A text that names no date
/// gives today's date.
pub fn add_days_to_date_string(date_str: &str, days: i64, today: Date) -> (text: String)
    requires
        today.is_valid(),
    ensures
        text@ == shifted_date_text(date_str@, days as int, today),
{
    let parsed = Date::parse(date_str);
    let date = shift_date(parsed, days, today);
    format_ymd(date)
}

fn position_of_client(clients: &[ClientDto], id: Id) -> (index: usize)
    ensures
        index == index_of_id(client_ids(clients@), id),
        index < clients@.len() || index == 0,
{
    let mut i: usize = 0;
    let n = clients.len();
    let ghost ids = client_ids(clients@);
    while i < n
        invariant
            i <= n,
            n == clients@.len(),
            ids == client_ids(clients@),
            forall|j: int| 0 <= j < i ==> ids[j] != id,
        decreases n - i,
    {
        if clients[i].id == id {
            proof {
                lemma_index_of_first(ids, id, i as int);
            }
            return i;
        }
        i = i + 1;
    }
    proof {
        lemma_index_of_missing(ids, id);
    }
    0
}

fn position_of_user(users: &[UserDto], id: Id) -> (index: usize)
    ensures
        index == index_of_id(user_ids(users@), id),
        index < users@.len() || index == 0,
{
    let mut i: usize = 0;
    let n = users.len();
    let ghost ids = user_ids(users@);
    while i < n
        invariant
            i <= n,
            n == users@.len(),
            ids == user_ids(users@),
            forall|j: int| 0 <= j < i ==> ids[j] != id,
        decreases n - i,
    {
        if users[i].id == id {
            proof {
                lemma_index_of_first(ids, id, i as int);
            }
            return i;
        }
        i = i + 1;
    }
    proof {
        lemma_index_of_missing(ids, id);
    }
    0
}

/// `index_of_id` finds the first place at which an identifier stands.
pub proof fn lemma_index_of_first(ids: Seq<Id>, id: Id, at: int)
    requires
        0 <= at < ids.len(),
        ids[at] == id,
        forall|j: int| 0 <= j < at ==> ids[j] != id,
    ensures
        index_of_id(ids, id) == at,
    decreases ids.len(),
{
    if at > 0 {
        let rest = ids.drop_first();
        assert(rest[at - 1] == id);
        assert(rest.contains(id));
        assert forall|j: int| 0 <= j < at - 1 implies rest[j] != id by {
            assert(rest[j] == ids[j + 1]);
        }
        lemma_index_of_first(rest, id, at - 1);
    }
}

/// `index_of_id` is 0 for an identifier that stands nowhere in the list.
pub proof fn lemma_index_of_missing(ids: Seq<Id>, id: Id)
    requires
        forall|j: int| 0 <= j < ids.len() ==> ids[j] != id,
    ensures
        index_of_id(ids, id) == 0,
{
    if ids.len() > 0 {
        let rest = ids.drop_first();
        if rest.contains(id) {
            let j = choose|j: int| 0 <= j < rest.len() && rest[j] == id;
            assert(ids[j + 1] == id);
        }
    }
}

fn client_id_at(clients: &[ClientDto], index: usize) -> (id: Id)
    ensures
        id == id_at(client_ids(clients@), index),
{
    if index < clients.len() {
        clients[index].id
    } else {
        NIL_ID
    }
}

fn user_id_at(users: &[UserDto], index: usize) -> (id: Id)
    ensures
        id == id_at(user_ids(users@), index),
{
    if index < users.len() {
        users[index].id
    } else {
        NIL_ID
    }
}

fn text_or_empty(text: &Option<String>) -> (r: String)
    ensures
        r@ == (match *text {
            Some(s) => s@,
            None => Seq::empty(),
        }),
{
    match text {
        Some(s) => s.clone(),
        None => String::new(),
    }
}

fn field_list(form_type: FormType) -> (fields: Vec<FormField>)
    ensures
        fields@ == fields_of(form_type),
{
    let fields = match form_type {
        FormType::CreateClient | FormType::EditClient(_) => vstd::slice::slice_to_vec(
            FormField::client_fields(),
        ),
        FormType::CreateProject | FormType::EditProject(_) => vstd::slice::slice_to_vec(
            FormField::project_fields(),
        ),
        FormType::CreateUser | FormType::EditUser(_) => vstd::slice::slice_to_vec(
            FormField::user_fields(),
        ),
    };
    fields
}

impl FormState {
    pub open spec fn wf(self) -> bool {
        self@.wf()
    }

    fn blank(form_type: FormType) -> (form: FormState)
        ensures
            form@ == FormView::blank(form_type),
            form.wf(),
    {
        FormState {
            form_type,
            focused_field: 0,
            fields: field_list(form_type),
            error: None,
            client_name: String::new(),
            client_address: String::new(),
            project_name: String::new(),
            project_client_idx: 0,
            project_manager_idx: 0,
            project_start_date: String::new(),
            project_end_date: String::new(),
            user_name: String::new(),
            user_login: String::new(),
            user_password: String::new(),
            user_role: Role::Manager,
            dropdown_open: false,
        }
    }

    /// A form for a new client.
    pub fn new_create_client() -> (form: FormState)
        ensures
            form@ == FormView::blank(FormType::CreateClient),
            form.wf(),
    {
        Self::blank(FormType::CreateClient)
    }

    /// A form for editing `client`, filled with what it holds.
    pub fn new_edit_client(client: &ClientDto) -> (form: FormState)
        ensures
            form@ == FormView::edit_client(*client),
            form.wf(),
    {
        let mut form = Self::blank(FormType::EditClient(client.id));
        form.client_name = text_or_empty(&client.name);
        form.client_address = text_or_empty(&client.address);
        form
    }

    /// A form for a new project that starts today and ends thirty days later.
    pub fn new_create_project(today: Date) -> (form: FormState)
        ensures
            form@ == FormView::create_project(today),
            form.wf(),
    {
        let mut form = Self::blank(FormType::CreateProject);
        form.project_start_date = text_of_date(today);
        form.project_end_date = text_of_date(default_end(today));
        form
    }

    /// A form for editing `project`, with its client and manager chosen
    /// in the lists, or the first of a list where they are not in it.
    pub fn new_edit_project(project: &ProjectDto, clients: &[ClientDto], users: &[UserDto]) -> (form:
        FormState)
        ensures
            form@ == FormView::edit_project(*project, clients@, users@),
            form.wf(),
    {
        let mut form = Self::blank(FormType::EditProject(project.id));
        form.project_name = text_or_empty(&project.name);
        form.project_client_idx = position_of_client(clients, project.client_id);
        form.project_manager_idx = position_of_user(users, project.manager_id);
        form.project_start_date = text_of_date(project.start_date);
        form.project_end_date = text_of_date(project.planned_end_date);
        form
    }

    /// A form for a new user.
    pub fn new_create_user() -> (form: FormState)
        ensures
            form@ == FormView::blank(FormType::CreateUser),
            form.wf(),
    {
        Self::blank(FormType::CreateUser)
    }

    /// A form for editing `user`; the password field starts empty.
    pub fn new_edit_user(user: &UserDto) -> (form: FormState)
        ensures
            form@ == FormView::edit_user(*user),
            form.wf(),
    {
        let mut form = Self::blank(FormType::EditUser(user.id));
        form.user_name = text_or_empty(&user.name);
        form.user_login = text_or_empty(&user.login);
        form.user_role = user.role;
        form
    }

    /// The field that has the focus.
    pub fn current_field(&self) -> (field: FormField)
        requires
            self.wf(),
        ensures
            field == self@.current_field(),
    {
        self.fields[self.focused_field]
    }

    /// Move the focus to the next field.
    pub fn next_field(&mut self)
        requires
            old(self).wf(),
        ensures
            final(self)@ == old(self)@.next_field(),
            final(self).wf(),
    {
        let count = self.fields.len();
        self.focused_field = if self.focused_field < count - 1 {
            self.focused_field + 1
        } else {
            0
        };
        self.dropdown_open = false;
    }

    /// Move the focus to the field before.
    pub fn prev_field(&mut self)
        requires
            old(self).wf(),
        ensures
            final(self)@ == old(self)@.prev_field(),
            final(self).wf(),
    {
        self.focused_field = if self.focused_field > 0 {
            self.focused_field - 1
        } else {
            self.fields.len() - 1
        };
        self.dropdown_open = false;
    }

    /// The text of the field that has the focus, to be changed in place;
    /// `None` where no text is typed into that field.
    pub fn current_text_mut(&mut self) -> (text: Option<&mut String>)
        requires
            old(self).wf(),
        ensures
            match text {
                Some(t) => old(self)@.current_text() == Some((*t)@) && final(self)@ == old(
                    self,
                )@.with_current_text((*final(t))@),
                None => old(self)@.current_text() is None && final(self)@ == old(self)@,
            },
    {
        match self.current_field() {
            FormField::ClientName => Some(&mut self.client_name),
            FormField::ClientAddress => Some(&mut self.client_address),
            FormField::ProjectName => Some(&mut self.project_name),
            FormField::UserName => Some(&mut self.user_name),
            FormField::UserLogin => Some(&mut self.user_login),
            FormField::UserPassword => Some(&mut self.user_password),
            _ => None,
        }
    }

    /// Type a character into the field that has the focus.
    pub fn handle_char(&mut self, c: char)
        requires
            old(self).wf(),
        ensures
            final(self)@ == old(self)@.typed(c),
            final(self).wf(),
    {
        match self.current_text_mut() {
            Some(text) => push_char(text, c),
            None => {},
        }
    }

    /// Take back the last character of the field that has the focus.
    pub fn handle_backspace(&mut self)
        requires
            old(self).wf(),
        ensures
            final(self)@ == old(self)@.erased(),
            final(self).wf(),
    {
        match self.current_text_mut() {
            Some(text) => {
                let _ = pop_char(text);
            },
            None => {},
        }
    }

    fn move_date(&mut self, days: i64, today: Date)
        requires
            old(self).wf(),
            today.is_valid(),
        ensures
            final(self)@ == old(self)@.date_moved(days as int, today),
            final(self).wf(),
    {
        match self.current_field() {
            FormField::ProjectStartDate => {
                self.project_start_date = add_days_to_date_string(
                    self.project_start_date.as_str(),
                    days,
                    today,
                );
            },
            FormField::ProjectEndDate => {
                self.project_end_date = add_days_to_date_string(
                    self.project_end_date.as_str(),
                    days,
                    today,
                );
            },
            _ => {},
        }
    }

    /// Move the date that has the focus one day on.
    pub fn increment_date(&mut self, today: Date)
        requires
            old(self).wf(),
            today.is_valid(),
        ensures
            final(self)@ == old(self)@.date_moved(1, today),
            final(self).wf(),
    {
        self.move_date(1, today);
    }

    /// Move the date that has the focus one day back.
    pub fn decrement_date(&mut self, today: Date)
        requires
            old(self).wf(),
            today.is_valid(),
        ensures
            final(self)@ == old(self)@.date_moved(-1, today),
            final(self).wf(),
    {
        self.move_date(-1, today);
    }

    pub open spec fn spec_create_client(self) -> CreateClientDto {
        CreateClientDto {
            name: Some(self.client_name),
            address: optional_text(self.client_address),
            projects_total: 0,
            projects_completed: 0,
        }
    }

    pub open spec fn spec_update_client(self) -> UpdateClientDto {
        UpdateClientDto {
            name: Some(self.client_name),
            address: optional_text(self.client_address),
            projects_total: 0,
            projects_completed: 0,
        }
    }

    pub open spec fn spec_create_project(
        self,
        clients: Seq<ClientDto>,
        users: Seq<UserDto>,
        today: Date,
    ) -> CreateProjectDto {
        CreateProjectDto {
            client_id: id_at(client_ids(clients), self.project_client_idx),
            name: Some(self.project_name),
            start_date: self.start_date(today),
            planned_end_date: self.end_date(today),
            actual_end_date: None,
            manager_id: id_at(user_ids(users), self.project_manager_idx),
        }
    }

    pub open spec fn spec_update_project(
        self,
        clients: Seq<ClientDto>,
        users: Seq<UserDto>,
        today: Date,
    ) -> UpdateProjectDto {
        UpdateProjectDto {
            client_id: id_at(client_ids(clients), self.project_client_idx),
            name: Some(self.project_name),
            start_date: self.start_date(today),
            planned_end_date: self.end_date(today),
            actual_end_date: None,
            manager_id: id_at(user_ids(users), self.project_manager_idx),
        }
    }

    pub open spec fn spec_create_user(self) -> CreateUserDto {
        CreateUserDto {
            name: Some(self.user_name),
            login: Some(self.user_login),
            password: Some(self.user_password),
            role: self.user_role,
        }
    }

    pub open spec fn spec_update_user(self) -> UpdateUserDto {
        UpdateUserDto {
            name: Some(self.user_name),
            login: Some(self.user_login),
            password: optional_text(self.user_password),
            role: self.user_role,
        }
    }

    /// What submitting the form leads to: the command that creates or
    /// updates the record it describes, or what is wrong with the record.
    pub open spec fn spec_command(
        self,
        clients: Seq<ClientDto>,
        users: Seq<UserDto>,
        today: Date,
    ) -> Result<ApiCommand, &'static str> {
        match self.form_type {
            FormType::CreateClient => {
                let dto = self.spec_create_client();
                match client_verdict(dto.name) {
                    Ok(_) => Ok(ApiCommand::CreateClient(dto)),
                    Err(e) => Err(e),
                }
            },
            FormType::EditClient(id) => {
                let dto = self.spec_update_client();
                match client_verdict(dto.name) {
                    Ok(_) => Ok(ApiCommand::UpdateClient(id, dto)),
                    Err(e) => Err(e),
                }
            },
            FormType::CreateProject => {
                let dto = self.spec_create_project(clients, users, today);
                match project_verdict(
                    dto.name,
                    dto.client_id,
                    dto.manager_id,
                    dto.start_date,
                    dto.planned_end_date,
                ) {
                    Ok(_) => Ok(ApiCommand::CreateProject(dto)),
                    Err(e) => Err(e),
                }
            },
            FormType::EditProject(id) => {
                let dto = self.spec_update_project(clients, users, today);
                match project_verdict(
                    dto.name,
                    dto.client_id,
                    dto.manager_id,
                    dto.start_date,
                    dto.planned_end_date,
                ) {
                    Ok(_) => Ok(ApiCommand::UpdateProject(id, dto)),
                    Err(e) => Err(e),
                }
            },
            FormType::CreateUser => {
                let dto = self.spec_create_user();
                match new_user_verdict(dto.name, dto.login, dto.password) {
                    Ok(_) => Ok(ApiCommand::CreateUser(dto)),
                    Err(e) => Err(e),
                }
            },
            FormType::EditUser(id) => {
                let dto = self.spec_update_user();
                match edited_user_verdict(dto.name, dto.login, dto.password) {
                    Ok(_) => Ok(ApiCommand::UpdateUser(id, dto)),
                    Err(e) => Err(e),
                }
            },
        }
    }

    /// The command that submitting the form sends, or what is wrong with
    /// the record the form describes.
    pub fn command(&self, clients: &[ClientDto], users: &[UserDto], today: Date) -> (outcome: Result<
        ApiCommand,
        &'static str,
    >)
        ensures
            outcome == self.spec_command(clients@, users@, today),
    {
        match self.form_type {
            FormType::CreateClient => {
                let dto = self.build_create_client();
                match dto.validate() {
                    Ok(_) => Ok(ApiCommand::CreateClient(dto)),
                    Err(e) => Err(e),
                }
            },
            FormType::EditClient(id) => {
                let dto = self.build_update_client();
                match dto.validate() {
                    Ok(_) => Ok(ApiCommand::UpdateClient(id, dto)),
                    Err(e) => Err(e),
                }
            },
            FormType::CreateProject => {
                let dto = self.build_create_project(clients, users, today);
                match dto.validate() {
                    Ok(_) => Ok(ApiCommand::CreateProject(dto)),
                    Err(e) => Err(e),
                }
            },
            FormType::EditProject(id) => {
                let dto = self.build_update_project(clients, users, today);
                match dto.validate() {
                    Ok(_) => Ok(ApiCommand::UpdateProject(id, dto)),
                    Err(e) => Err(e),
                }
            },
            FormType::CreateUser => {
                let dto = self.build_create_user();
                match dto.validate() {
                    Ok(_) => Ok(ApiCommand::CreateUser(dto)),
                    Err(e) => Err(e),
                }
            },
            FormType::EditUser(id) => {
                let dto = self.build_update_user();
                match dto.validate() {
                    Ok(_) => Ok(ApiCommand::UpdateUser(id, dto)),
                    Err(e) => Err(e),
                }
            },
        }
    }

    /// Show what is wrong with the record.
    pub fn set_error(&mut self, complaint: &str)
        ensures
            final(self)@ == old(self)@.with_error(complaint@),
    {
        self.error = Some(complaint.to_owned());
    }

    /// The up arrow: see `FormView::arrow_up`.
    pub fn arrow_up(&mut self, today: Date)
        requires
            old(self).wf(),
            today.is_valid(),
        ensures
            final(self)@ == old(self)@.arrow_up(today),
            final(self).wf(),
    {
        match self.current_field() {
            FormField::ProjectStartDate | FormField::ProjectEndDate => {
                self.increment_date(today);
            },
            FormField::ProjectClient => {
                if self.project_client_idx > 0 {
                    self.project_client_idx = self.project_client_idx - 1;
                }
            },
            FormField::ProjectManager => {
                if self.project_manager_idx > 0 {
                    self.project_manager_idx = self.project_manager_idx - 1;
                }
            },
            FormField::UserRole => {
                self.user_role = self.user_role.next();
            },
            _ => {},
        }
    }

    /// The down arrow: see `FormView::arrow_down`.
    pub fn arrow_down(&mut self, clients: usize, users: usize, today: Date)
        requires
            old(self).wf(),
            today.is_valid(),
        ensures
            final(self)@ == old(self)@.arrow_down(clients as nat, users as nat, today),
            final(self).wf(),
    {
        match self.current_field() {
            FormField::ProjectStartDate | FormField::ProjectEndDate => {
                self.decrement_date(today);
            },
            FormField::ProjectClient => {
                if clients > 0 && self.project_client_idx < clients - 1 {
                    self.project_client_idx = self.project_client_idx + 1;
                }
            },
            FormField::ProjectManager => {
                if users > 0 && self.project_manager_idx < users - 1 {
                    self.project_manager_idx = self.project_manager_idx + 1;
                }
            },
            FormField::UserRole => {
                self.user_role = self.user_role.next();
            },
            _ => {},
        }
    }

    /// The left (`forward` false) or right arrow: see `FormView::arrow_sideways`.
    pub fn arrow_sideways(&mut self, forward: bool, today: Date)
        requires
            old(self).wf(),
            today.is_valid(),
        ensures
            final(self)@ == old(self)@.arrow_sideways(forward, today),
            final(self).wf(),
    {
        if self.current_field().is_date_picker() {
            let days: i64 = if forward {
                1
            } else {
                -1
            };
            let mut done: usize = 0;
            while done < WEEK_STEPS
                invariant
                    done <= WEEK_STEPS,
                    self.wf(),
                    today.is_valid(),
                    days == (if forward {
                        1i64
                    } else {
                        -1i64
                    }),
                    self@ == old(self)@.date_moved_times(days as int, today, done as nat),
                decreases WEEK_STEPS - done,
            {
                self.move_date(days, today);
                done = done + 1;
            }
        }
    }

    /// The client the form describes, to be created.
    pub fn build_create_client(&self) -> (dto: CreateClientDto)
        ensures
            dto == self.spec_create_client(),
    {
        CreateClientDto {
            name: Some(self.client_name.clone()),
            address: optional(&self.client_address),
            projects_total: 0,
            projects_completed: 0,
        }
    }

    /// The client the form describes, as an update.
    pub fn build_update_client(&self) -> (dto: UpdateClientDto)
        ensures
            dto == self.spec_update_client(),
    {
        UpdateClientDto {
            name: Some(self.client_name.clone()),
            address: optional(&self.client_address),
            projects_total: 0,
            projects_completed: 0,
        }
    }

    /// The start date the form gives: what its text names, or today.
    pub open spec fn start_date(self, today: Date) -> Date {
        match parsed_date(self.project_start_date@) {
            Some(date) => date,
            None => today,
        }
    }

    /// The end date the form gives: what its text names, or the default
    /// end for the start date.
    pub open spec fn end_date(self, today: Date) -> Date {
        match parsed_date(self.project_end_date@) {
            Some(date) => date,
            None => default_end_date(self.start_date(today)),
        }
    }

    fn read_dates(&self, today: Date) -> (dates: (Date, Date))
        ensures
            dates.0 == self.start_date(today),
            dates.1 == self.end_date(today),
    {
        project_dates(
            Date::parse(self.project_start_date.as_str()),
            Date::parse(self.project_end_date.as_str()),
            today,
        )
    }

    /// The project the form describes, to be created. The client and the
    /// manager are those chosen in the lists; a choice past the end of a
    /// list gives the nil identifier.
    pub fn build_create_project(&self, clients: &[ClientDto], users: &[UserDto], today: Date) -> (dto:
        CreateProjectDto)
        ensures
            dto == self.spec_create_project(clients@, users@, today),
    {
        let (start_date, end_date) = self.read_dates(today);
        CreateProjectDto {
            client_id: client_id_at(clients, self.project_client_idx),
            name: Some(self.project_name.clone()),
            start_date,
            planned_end_date: end_date,
            actual_end_date: None,
            manager_id: user_id_at(users, self.project_manager_idx),
        }
    }

    /// The project the form describes, as an update.
    pub fn build_update_project(&self, clients: &[ClientDto], users: &[UserDto], today: Date) -> (dto:
        UpdateProjectDto)
        ensures
            dto == self.spec_update_project(clients@, users@, today),
    {
        let (start_date, end_date) = self.read_dates(today);
        UpdateProjectDto {
            client_id: client_id_at(clients, self.project_client_idx),
            name: Some(self.project_name.clone()),
            start_date,
            planned_end_date: end_date,
            actual_end_date: None,
            manager_id: user_id_at(users, self.project_manager_idx),
        }
    }

    /// The user the form describes, to be created.
    pub fn build_create_user(&self) -> (dto: CreateUserDto)
        ensures
            dto == self.spec_create_user(),
    {
        CreateUserDto {
            name: Some(self.user_name.clone()),
            login: Some(self.user_login.clone()),
            password: Some(self.user_password.clone()),
            role: self.user_role,
        }
    }

    /// The user the form describes, as an update; an empty password field
    /// leaves the password as it is.
    pub fn build_update_user(&self) -> (dto: UpdateUserDto)
        ensures
            dto == self.spec_update_user(),
    {
        UpdateUserDto {
            name: Some(self.user_name.clone()),
            login: Some(self.user_login.clone()),
            password: optional(&self.user_password),
            role: self.user_role,
        }
    }
}

/// The focus goes round: as many steps forward as the form has fields
/// lead back to the field it was on, and a step back undoes a step forward.
pub proof fn lemma_focus_round_trip(form: FormView)
    requires
        form.wf(),
    ensures
        form.next_field().wf(),
        form.prev_field().wf(),
        form.next_field().prev_field().focused_field == form.focused_field,
        form.prev_field().next_field().focused_field == form.focused_field,
{
}

} // verus!
