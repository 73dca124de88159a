//! Data models of the management service: users, clients and projects, in
//! the shape in which they are read from and sent to it, with the checks a
//! record must pass before it is sent.

use vstd::prelude::*;
use vstd::std_specs::convert::FromSpecImpl;
use vstd::string::StringSliceAdditionalSpecFns;
use crate::dates::Date;
use crate::text::{blank, is_blank};

verus! {

/// Identifier of a record: the 128 bits of its UUID, most significant first.
pub type Id = u128;

/// The identifier that stands for "none chosen".
pub const NIL_ID: u128 = 0;

/// The text of an identifier: 32 hexadecimal digits in five groups with
/// hyphens between them.
pub uninterp spec fn id_text(id: u128) -> Seq<char>;

/// Characters in the text of an identifier.
pub const ID_TEXT_LEN: usize = 36;

/// Characters of an identifier shown in messages.
pub const SHORT_ID_LEN: usize = 8;

/// Writes an identifier as `uuid::Uuid` displays it. The contract names
/// the text and gives its length, that of the hyphenated form.
#[verifier::external_body]
pub(crate) fn id_to_text(id: Id) -> (text: String)
    ensures
        text@ == id_text(id),
        text@.len() == ID_TEXT_LEN,
{
    uuid::Uuid::from_u128(id).to_string()
}

/// The first eight characters of the text of an identifier.
pub open spec fn short_id(id: u128) -> Seq<char> {
    id_text(id).take(SHORT_ID_LEN as int)
}

/// The beginning of an identifier, as messages show it.
pub fn short_id_text(id: Id) -> (text: String)
    ensures
        text@ == short_id(id),
{
    let full = id_to_text(id);
    crate::text::first_chars(full.as_str(), SHORT_ID_LEN)
}

/// Days a new project is planned to last by default.
pub const DEFAULT_PROJECT_DAYS: i64 = 30;

/// Shortest password accepted, in bytes.
pub const MIN_PASSWORD_LEN: usize = 4;

/// Role of a user; on the wire `Manager` is 0 and `Admin` is 1.
#[derive(Debug, Clone, Copy, PartialEq, Eq, Structural)]
pub enum Role {
    Manager,
    Admin,
}

impl Default for Role {
    fn default() -> (r: Role)
        ensures
            r == Role::Manager,
    {
        Role::Manager
    }
}

impl Role {
    /// The number a role has on the wire.
    pub open spec fn code(self) -> int {
        match self {
            Role::Manager => 0,
            Role::Admin => 1,
        }
    }

    /// The role a wire number stands for: 1 is `Admin`, all else `Manager`.
    pub open spec fn from_code(value: int) -> Role {
        if value == 1 {
            Role::Admin
        } else {
            Role::Manager
        }
    }

    pub open spec fn spec_next(self) -> Role {
        match self {
            Role::Manager => Role::Admin,
            Role::Admin => Role::Manager,
        }
    }

    /// All roles, in wire order.
    pub fn all() -> (roles: &'static [Role])
        ensures
            roles@ == seq![Role::Manager, Role::Admin],
    {
        &[Role::Manager, Role::Admin]
    }

    /// The role that follows this one, cycling.
    pub fn next(&self) -> (r: Role)
        ensures
            r == self.spec_next(),
    {
        match self {
            Role::Manager => Role::Admin,
            Role::Admin => Role::Manager,
        }
    }

    /// The role's name as shown on screen.
    pub fn to_string(&self) -> (s: String)
        ensures
            s@ == (match *self {
                Role::Manager => "Manager"@,
                Role::Admin => "Admin"@,
            }),
    {
        match self {
            Role::Manager => "Manager".to_owned(),
            Role::Admin => "Admin".to_owned(),
        }
    }
}

impl From<i32> for Role {
    fn from(value: i32) -> (r: Role) {
        if value == 1 {
            Role::Admin
        } else {
            Role::Manager
        }
    }
}

impl FromSpecImpl<i32> for Role {
    open spec fn obeys_from_spec() -> bool {
        true
    }

    open spec fn from_spec(value: i32) -> Role {
        Role::from_code(value as int)
    }
}

impl From<Role> for i32 {
    fn from(role: Role) -> (n: i32) {
        match role {
            Role::Manager => 0,
            Role::Admin => 1,
        }
    }
}

impl FromSpecImpl<Role> for i32 {
    open spec fn obeys_from_spec() -> bool {
        true
    }

    open spec fn from_spec(role: Role) -> i32 {
        role.code() as i32
    }
}

/// A copy of an optional text.
pub fn clone_text(text: &Option<String>) -> (copy: Option<String>)
    ensures
        copy == *text,
{
    match text {
        Some(s) => Some(s.clone()),
        None => None,
    }
}

/// Whether an optional text is missing or blank.
pub open spec fn text_missing(text: Option<String>) -> bool {
    match text {
        Some(s) => is_blank(s@),
        None => true,
    }
}

/// Whether an optional text is missing or blank.
pub fn missing(text: &Option<String>) -> (b: bool)
    ensures
        b == text_missing(*text),
{
    match text {
        Some(s) => blank(s.as_str()),
        None => true,
    }
}

/// Length of a text in bytes of UTF-8.
pub open spec fn byte_len(s: Seq<char>) -> nat {
    vstd::utf8::encode_utf8(s).len()
}

/// The text to show for an optional name.
pub open spec fn shown_name(name: Option<String>, fallback: &str) -> Seq<char> {
    match name {
        Some(s) => s@,
        None => fallback@,
    }
}

fn name_or<'a>(name: &'a Option<String>, fallback: &'a str) -> (shown: &'a str)
    ensures
        shown@ == shown_name(*name, fallback),
{
    match name {
        Some(s) => s.as_str(),
        None => fallback,
    }
}

// ---------------------------------------------------------------------
// Clients
// ---------------------------------------------------------------------

/// A client as read from the service.
#[derive(Debug, Clone)]
pub struct ClientDto {
    pub id: Id,
    pub name: Option<String>,
    pub address: Option<String>,
    pub projects_total: i32,
    pub projects_completed: i32,
}

impl ClientDto {
    pub fn display_name(&self) -> (shown: &str)
        ensures
            shown@ == shown_name(self.name, "Unnamed Client"),
    {
        name_or(&self.name, "Unnamed Client")
    }
}

/// A client to be created.
#[derive(Debug, Clone)]
pub struct CreateClientDto {
    pub name: Option<String>,
    pub address: Option<String>,
    pub projects_total: i32,
    pub projects_completed: i32,
}

/// The verdict on a client record, from whether its name is missing.
pub open spec fn client_verdict_of(name_missing: bool) -> Result<(), &'static str> {
    if name_missing {
        Err("Name is required")
    } else {
        Ok(())
    }
}

/// The verdict on a client record: its name must not be missing.
pub open spec fn client_verdict(name: Option<String>) -> Result<(), &'static str> {
    client_verdict_of(text_missing(name))
}

/// Checks a client record of which it is known whether the name is missing.
pub fn check_client(name_missing: bool) -> (verdict: Result<(), &'static str>)
    ensures
        verdict == client_verdict_of(name_missing),
{
    if name_missing {
        return Err("Name is required");
    }
    Ok(())
}

impl Default for CreateClientDto {
    fn default() -> (dto: CreateClientDto)
        ensures
            dto.name is None,
            dto.address is None,
            dto.projects_total == 0,
            dto.projects_completed == 0,
    {
        CreateClientDto { name: None, address: None, projects_total: 0, projects_completed: 0 }
    }
}

impl CreateClientDto {
    /// An empty record.
    pub fn new() -> (dto: CreateClientDto)
        ensures
            dto.name is None,
            dto.address is None,
            dto.projects_total == 0,
            dto.projects_completed == 0,
    {
        CreateClientDto { name: None, address: None, projects_total: 0, projects_completed: 0 }
    }

    pub fn validate(&self) -> (verdict: Result<(), &'static str>)
        ensures
            verdict == client_verdict(self.name),
    {
        check_client(missing(&self.name))
    }
}

/// New values for an existing client.
#[derive(Debug, Clone)]
pub struct UpdateClientDto {
    pub name: Option<String>,
    pub address: Option<String>,
    pub projects_total: i32,
    pub projects_completed: i32,
}

impl Default for UpdateClientDto {
    fn default() -> (dto: UpdateClientDto)
        ensures
            dto.name is None,
            dto.address is None,
            dto.projects_total == 0,
            dto.projects_completed == 0,
    {
        UpdateClientDto { name: None, address: None, projects_total: 0, projects_completed: 0 }
    }
}

impl UpdateClientDto {
    /// The values a client has now, as the start of an edit.
    pub fn from_client(client: &ClientDto) -> (dto: UpdateClientDto)
        ensures
            dto.name == client.name,
            dto.address == client.address,
            dto.projects_total == client.projects_total,
            dto.projects_completed == client.projects_completed,
    {
        UpdateClientDto {
            name: clone_text(&client.name),
            address: clone_text(&client.address),
            projects_total: client.projects_total,
            projects_completed: client.projects_completed,
        }
    }

    pub fn validate(&self) -> (verdict: Result<(), &'static str>)
        ensures
            verdict == client_verdict(self.name),
    {
        check_client(missing(&self.name))
    }
}

// ---------------------------------------------------------------------
// Projects
// ---------------------------------------------------------------------

/// Where a project stands on a given day. The variants are listed in the
/// order in which they are tested: the first that applies wins.
#[derive(Debug, Clone, Copy, PartialEq, Eq, Structural)]
pub enum ProjectStatus {
    /// It has an actual end date, whatever the other dates say.
    Completed,
    /// Not completed, and the planned end date has passed.
    Overdue,
    /// Neither of the above, and it has not started yet.
    Pending,
    /// All other projects.
    Active,
}

/// A project as read from the service.
#[derive(Debug, Clone)]
pub struct ProjectDto {
    pub id: Id,
    pub client_id: Id,
    pub name: Option<String>,
    pub start_date: Date,
    pub planned_end_date: Date,
    pub actual_end_date: Option<Date>,
    pub manager_id: Id,
}

impl ProjectDto {
    /// The date the bar of the project ends on: the actual end where there
    /// is one, else the planned end.
    pub open spec fn spec_effective_end(self) -> Date {
        match self.actual_end_date {
            Some(d) => d,
            None => self.planned_end_date,
        }
    }

    /// Days from the start to the effective end.
    pub open spec fn span_days(self) -> int {
        self.spec_effective_end().days - self.start_date.days
    }

    /// A span is valid when it does not end before it starts.
    pub open spec fn span_valid(self) -> bool {
        self.span_days() >= 0
    }

    pub open spec fn spec_status(self, today: Date) -> ProjectStatus {
        if self.actual_end_date is Some {
            ProjectStatus::Completed
        } else if today.days > self.planned_end_date.days {
            ProjectStatus::Overdue
        } else if self.start_date.days > today.days {
            ProjectStatus::Pending
        } else {
            ProjectStatus::Active
        }
    }

    pub fn display_name(&self) -> (shown: &str)
        ensures
            shown@ == shown_name(self.name, "Unnamed Project"),
    {
        name_or(&self.name, "Unnamed Project")
    }

    /// Planned duration in days.
    pub fn duration_days(&self) -> (n: i64)
        ensures
            n == self.planned_end_date.days - self.start_date.days,
    {
        self.planned_end_date.days_since(self.start_date)
    }

    pub fn effective_end(&self) -> (d: Date)
        ensures
            d == self.spec_effective_end(),
    {
        match self.actual_end_date {
            Some(d) => d,
            None => self.planned_end_date,
        }
    }

    pub fn has_valid_span(&self) -> (b: bool)
        ensures
            b == self.span_valid(),
    {
        self.effective_end().days >= self.start_date.days
    }

    pub fn status(&self, today: Date) -> (s: ProjectStatus)
        ensures
            s == self.spec_status(today),
    {
        if self.actual_end_date.is_some() {
            ProjectStatus::Completed
        } else if today.days > self.planned_end_date.days {
            ProjectStatus::Overdue
        } else if self.start_date.days > today.days {
            ProjectStatus::Pending
        } else {
            ProjectStatus::Active
        }
    }

    pub fn is_completed(&self) -> (b: bool)
        ensures
            b == (self.actual_end_date is Some),
    {
        self.actual_end_date.is_some()
    }

    /// Past its planned end on `today` and not completed.
    pub fn is_overdue(&self, today: Date) -> (b: bool)
        ensures
            b == (self.spec_status(today) == ProjectStatus::Overdue),
            b == (self.actual_end_date is None && today.days > self.planned_end_date.days),
    {
        if self.is_completed() {
            return false;
        }
        today.days > self.planned_end_date.days
    }

    /// Neither completed nor overdue, and starting after `today`.
    pub fn is_pending(&self, today: Date) -> (b: bool)
        ensures
            b == (self.spec_status(today) == ProjectStatus::Pending),
    {
        !self.is_completed() && !self.is_overdue(today) && self.start_date.days > today.days
    }
}

/// A project that has an actual end date is completed on every day,
/// however its other dates lie: it is never overdue, pending or active.
/// Of the other three, a project past its planned end is overdue even
/// where it has not started.
pub proof fn lemma_status_precedence(project: ProjectDto, today: Date)
    ensures
        project.actual_end_date is Some ==> project.spec_status(today)
            == ProjectStatus::Completed,
        project.spec_status(today) == ProjectStatus::Completed <==> project.actual_end_date
            is Some,
        project.spec_status(today) == ProjectStatus::Overdue <==> project.actual_end_date is None
            && today.days > project.planned_end_date.days,
        project.spec_status(today) == ProjectStatus::Pending <==> project.actual_end_date is None
            && today.days <= project.planned_end_date.days && project.start_date.days
            > today.days,
{
}

/// The verdict on a project record, from whether its name is missing
/// and from its other fields. The tests are made in this order.
pub open spec fn project_verdict_of(
    name_missing: bool,
    client_id: Id,
    manager_id: Id,
    start_date: Date,
    planned_end_date: Date,
) -> Result<(), &'static str> {
    if name_missing {
        Err("Name is required")
    } else if client_id == NIL_ID {
        Err("Client is required")
    } else if manager_id == NIL_ID {
        Err("Manager is required")
    } else if planned_end_date.days < start_date.days {
        Err("End date must be after start date")
    } else {
        Ok(())
    }
}

/// The verdict on a project record.
pub open spec fn project_verdict(
    name: Option<String>,
    client_id: Id,
    manager_id: Id,
    start_date: Date,
    planned_end_date: Date,
) -> Result<(), &'static str> {
    project_verdict_of(text_missing(name), client_id, manager_id, start_date, planned_end_date)
}

/// Checks a project record of which it is known whether the name is missing.
pub fn check_project(
    name_missing: bool,
    client_id: Id,
    manager_id: Id,
    start_date: Date,
    planned_end_date: Date,
) -> (verdict: Result<(), &'static str>)
    ensures
        verdict == project_verdict_of(
            name_missing,
            client_id,
            manager_id,
            start_date,
            planned_end_date,
        ),
{
    if name_missing {
        return Err("Name is required");
    }
    if client_id == NIL_ID {
        return Err("Client is required");
    }
    if manager_id == NIL_ID {
        return Err("Manager is required");
    }
    if planned_end_date.days < start_date.days {
        return Err("End date must be after start date");
    }
    Ok(())
}

/// The planned end proposed for a project that starts on `start`: thirty
/// days later, or the start itself where the calendar ends before that.
pub open spec fn default_end_date(start: Date) -> Date {
    match start.spec_plus_days(DEFAULT_PROJECT_DAYS as int) {
        Some(end) => end,
        None => start,
    }
}

/// The planned end proposed for a project that starts on `start`.
pub fn default_end(start: Date) -> (end: Date)
    ensures
        end == default_end_date(start),
        start.is_valid() ==> end.is_valid(),
        start.days <= end.days,
{
    match start.plus_days(DEFAULT_PROJECT_DAYS) {
        Some(end) => end,
        None => start,
    }
}

/// A project to be created.
#[derive(Debug, Clone)]
pub struct CreateProjectDto {
    pub client_id: Id,
    pub name: Option<String>,
    pub start_date: Date,
    pub planned_end_date: Date,
    pub actual_end_date: Option<Date>,
    pub manager_id: Id,
}

impl CreateProjectDto {
    /// An empty record that starts on `today` and is planned to end
    /// thirty days later.
    pub fn new(today: Date) -> (dto: CreateProjectDto)
        ensures
            dto.client_id == NIL_ID,
            dto.manager_id == NIL_ID,
            dto.name is None,
            dto.start_date == today,
            dto.planned_end_date == default_end_date(today),
            dto.actual_end_date is None,
    {
        CreateProjectDto {
            client_id: NIL_ID,
            name: None,
            start_date: today,
            planned_end_date: default_end(today),
            actual_end_date: None,
            manager_id: NIL_ID,
        }
    }

    pub fn validate(&self) -> (verdict: Result<(), &'static str>)
        ensures
            verdict == project_verdict(
                self.name,
                self.client_id,
                self.manager_id,
                self.start_date,
                self.planned_end_date,
            ),
    {
        check_project(
            missing(&self.name),
            self.client_id,
            self.manager_id,
            self.start_date,
            self.planned_end_date,
        )
    }
}

/// New values for an existing project.
#[derive(Debug, Clone)]
pub struct UpdateProjectDto {
    pub client_id: Id,
    pub name: Option<String>,
    pub start_date: Date,
    pub planned_end_date: Date,
    pub actual_end_date: Option<Date>,
    pub manager_id: Id,
}

impl UpdateProjectDto {
    /// The values a project has now, as the start of an edit.
    pub fn from_project(project: &ProjectDto) -> (dto: UpdateProjectDto)
        ensures
            dto.client_id == project.client_id,
            dto.name == project.name,
            dto.start_date == project.start_date,
            dto.planned_end_date == project.planned_end_date,
            dto.actual_end_date == project.actual_end_date,
            dto.manager_id == project.manager_id,
    {
        UpdateProjectDto {
            client_id: project.client_id,
            name: clone_text(&project.name),
            start_date: project.start_date,
            planned_end_date: project.planned_end_date,
            actual_end_date: project.actual_end_date,
            manager_id: project.manager_id,
        }
    }

    pub fn validate(&self) -> (verdict: Result<(), &'static str>)
        ensures
            verdict == project_verdict(
                self.name,
                self.client_id,
                self.manager_id,
                self.start_date,
                self.planned_end_date,
            ),
    {
        check_project(
            missing(&self.name),
            self.client_id,
            self.manager_id,
            self.start_date,
            self.planned_end_date,
        )
    }
}

// ---------------------------------------------------------------------
// Users
// ---------------------------------------------------------------------

/// A user as read from the service.
#[derive(Debug, Clone)]
pub struct UserDto {
    pub id: Id,
    pub name: Option<String>,
    pub login: Option<String>,
    pub role: Role,
}

impl UserDto {
    pub fn display_name(&self) -> (shown: &str)
        ensures
            shown@ == shown_name(self.name, "Unnamed User"),
    {
        name_or(&self.name, "Unnamed User")
    }

    /// Managers are the users a project can be assigned to.
    pub fn is_manager(&self) -> (b: bool)
        ensures
            b == (self.role == Role::Manager),
    {
        self.role == Role::Manager
    }
}

/// A user to be created.
#[derive(Debug, Clone)]
pub struct CreateUserDto {
    pub name: Option<String>,
    pub login: Option<String>,
    pub password: Option<String>,
    pub role: Role,
}

/// The verdict on a new user, from whether name and login are missing
/// and from the password. The tests are made in this order; a password is
/// required.
pub open spec fn new_user_verdict_of(
    name_missing: bool,
    login_missing: bool,
    password: Option<String>,
) -> Result<(), &'static str> {
    if name_missing {
        Err("Name is required")
    } else if login_missing {
        Err("Login is required")
    } else if password is None || password->0@.len() == 0 {
        Err("Password is required")
    } else if byte_len(password->0@) < MIN_PASSWORD_LEN {
        Err("Password must be at least 4 characters")
    } else {
        Ok(())
    }
}

/// The verdict on a new user.
pub open spec fn new_user_verdict(
    name: Option<String>,
    login: Option<String>,
    password: Option<String>,
) -> Result<(), &'static str> {
    new_user_verdict_of(text_missing(name), text_missing(login), password)
}

/// The verdict on an edited user, from whether name and login are
/// missing and from the password. The tests are made in this order; the
/// password may be left out or empty, which keeps the old one.
pub open spec fn edited_user_verdict_of(
    name_missing: bool,
    login_missing: bool,
    password: Option<String>,
) -> Result<(), &'static str> {
    if name_missing {
        Err("Name is required")
    } else if login_missing {
        Err("Login is required")
    } else if password is Some && password->0@.len() != 0 && byte_len(password->0@)
        < MIN_PASSWORD_LEN {
        Err("Password must be at least 4 characters")
    } else {
        Ok(())
    }
}

/// The verdict on an edited user.
pub open spec fn edited_user_verdict(
    name: Option<String>,
    login: Option<String>,
    password: Option<String>,
) -> Result<(), &'static str> {
    edited_user_verdict_of(text_missing(name), text_missing(login), password)
}

/// Checks a new user of whom it is known whether name and login are missing.
pub fn check_new_user(name_missing: bool, login_missing: bool, password: &Option<String>) -> (verdict:
    Result<(), &'static str>)
    ensures
        verdict == new_user_verdict_of(name_missing, login_missing, *password),
{
    if name_missing {
        return Err("Name is required");
    }
    if login_missing {
        return Err("Login is required");
    }
    match password {
        None => Err("Password is required"),
        Some(p) => {
            if p.as_str().is_empty() {
                Err("Password is required")
            } else if p.as_str().as_bytes().len() < MIN_PASSWORD_LEN {
                Err("Password must be at least 4 characters")
            } else {
                Ok(())
            }
        },
    }
}

/// Checks an edited user of whom it is known whether name and login are missing.
pub fn check_edited_user(
    name_missing: bool,
    login_missing: bool,
    password: &Option<String>,
) -> (verdict: Result<(), &'static str>)
    ensures
        verdict == edited_user_verdict_of(name_missing, login_missing, *password),
{
    if name_missing {
        return Err("Name is required");
    }
    if login_missing {
        return Err("Login is required");
    }
    match password {
        None => Ok(()),
        Some(p) => {
            if !p.as_str().is_empty() && p.as_str().as_bytes().len() < MIN_PASSWORD_LEN {
                Err("Password must be at least 4 characters")
            } else {
                Ok(())
            }
        },
    }
}

impl CreateUserDto {
    /// An empty record for a manager.
    pub fn new() -> (dto: CreateUserDto)
        ensures
            dto.name is None,
            dto.login is None,
            dto.password is None,
            dto.role == Role::Manager,
    {
        CreateUserDto { name: None, login: None, password: None, role: Role::Manager }
    }

    pub fn validate(&self) -> (verdict: Result<(), &'static str>)
        ensures
            verdict == new_user_verdict(self.name, self.login, self.password),
    {
        check_new_user(missing(&self.name), missing(&self.login), &self.password)
    }
}

/// New values for an existing user.
#[derive(Debug, Clone)]
pub struct UpdateUserDto {
    pub name: Option<String>,
    pub login: Option<String>,
    pub password: Option<String>,
    pub role: Role,
}

impl Default for CreateUserDto {
    fn default() -> (dto: CreateUserDto)
        ensures
            dto.name is None,
            dto.login is None,
            dto.password is None,
            dto.role == Role::Manager,
    {
        CreateUserDto { name: None, login: None, password: None, role: Role::Manager }
    }
}

impl Default for UpdateUserDto {
    fn default() -> (dto: UpdateUserDto)
        ensures
            dto.name is None,
            dto.login is None,
            dto.password is None,
            dto.role == Role::Manager,
    {
        UpdateUserDto { name: None, login: None, password: None, role: Role::Manager }
    }
}

impl UpdateUserDto {
    /// The values a user has now, as the start of an edit. The password is
    /// never read back.
    pub fn from_user(user: &UserDto) -> (dto: UpdateUserDto)
        ensures
            dto.name == user.name,
            dto.login == user.login,
            dto.password is None,
            dto.role == user.role,
    {
        UpdateUserDto {
            name: clone_text(&user.name),
            login: clone_text(&user.login),
            password: None,
            role: user.role,
        }
    }

    pub fn validate(&self) -> (verdict: Result<(), &'static str>)
        ensures
            verdict == edited_user_verdict(self.name, self.login, self.password),
    {
        check_edited_user(missing(&self.name), missing(&self.login), &self.password)
    }
}

// ---------------------------------------------------------------------
// Pages and errors
// ---------------------------------------------------------------------

/// One page of a listing.
#[derive(Debug, Clone)]
pub struct PaginatedResult<T> {
    pub items: Option<Vec<T>>,
    pub page: i32,
    pub page_size: i32,
    pub total_count: i32,
    pub total_pages: i32,
    pub has_previous: bool,
    pub has_next: bool,
}

impl<T> PaginatedResult<T> {
    /// The records on the page, in order; none where the page came without a list.
    pub open spec fn spec_items(self) -> Seq<T> {
        match self.items {
            Some(v) => v@,
            None => Seq::empty(),
        }
    }

    pub fn items(&self) -> (records: &[T])
        ensures
            records@ == self.spec_items(),
    {
        match &self.items {
            Some(v) => v.as_slice(),
            None => &[],
        }
    }
}

/// An error as the service reports it.
#[derive(Debug, Clone)]
pub struct ProblemDetails {
    pub problem_type: Option<String>,
    pub title: Option<String>,
    pub status: Option<i32>,
    pub detail: Option<String>,
    pub instance: Option<String>,
}

} // verus!
