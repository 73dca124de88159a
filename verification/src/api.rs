//! What passes between the screen and the worker that talks to the
//! service: commands one way, messages the other, and the decisions the
//! worker and the screen make about them.

use vstd::prelude::*;
use crate::models::{
    ClientDto,
    CreateClientDto,
    CreateProjectDto,
    CreateUserDto,
    Id,
    ProjectDto,
    UpdateClientDto,
    UpdateProjectDto,
    UpdateUserDto,
    UserDto,
};
use crate::text::{concat2, concat3, decimal, decimal_digits};

verus! {

/// Address of the service where none is given.
pub const DEFAULT_BASE_URL: &'static str = "http://localhost:5094";

/// Records asked for per page when a whole listing is fetched.
pub const FETCH_PAGE_SIZE: i32 = 100;

/// The kinds of record.
#[derive(Debug, Clone, Copy, PartialEq, Eq, Structural)]
pub enum EntityType {
    Client,
    Project,
    User,
}

impl EntityType {
    pub open spec fn spec_name(self) -> &'static str {
        match self {
            EntityType::Client => "Client",
            EntityType::Project => "Project",
            EntityType::User => "User",
        }
    }

    /// The part of the service's address under which records of this kind live.
    pub open spec fn spec_path(self) -> &'static str {
        match self {
            EntityType::Client => "clients",
            EntityType::Project => "projects",
            EntityType::User => "users",
        }
    }

    /// The name of the kind, as messages show it.
    pub fn name(&self) -> (name: &'static str)
        ensures
            name == self.spec_name(),
    {
        match self {
            EntityType::Client => "Client",
            EntityType::Project => "Project",
            EntityType::User => "User",
        }
    }

    pub fn to_string(&self) -> (name: String)
        ensures
            name@ == self.spec_name()@,
    {
        self.name().to_owned()
    }

    pub fn path(&self) -> (path: &'static str)
        ensures
            path == self.spec_path(),
    {
        match self {
            EntityType::Client => "clients",
            EntityType::Project => "projects",
            EntityType::User => "users",
        }
    }

    /// The command that fetches the records of this kind anew.
    pub open spec fn spec_refresh_command(self) -> ApiCommand {
        match self {
            EntityType::Client => ApiCommand::RefreshClients,
            EntityType::Project => ApiCommand::RefreshProjects,
            EntityType::User => ApiCommand::RefreshUsers,
        }
    }

    pub fn refresh_command(&self) -> (command: ApiCommand)
        ensures
            command == self.spec_refresh_command(),
    {
        match self {
            EntityType::Client => ApiCommand::RefreshClients,
            EntityType::Project => ApiCommand::RefreshProjects,
            EntityType::User => ApiCommand::RefreshUsers,
        }
    }
}

/// Messages from the worker to the screen.
#[derive(Debug, Clone)]
pub enum ApiMessage {
    /// The projects were fetched.
    ProjectsLoaded(Vec<ProjectDto>),
    /// The clients were fetched.
    ClientsLoaded(Vec<ClientDto>),
    /// The users were fetched.
    UsersLoaded(Vec<UserDto>),
    /// Something went wrong; the text says what.
    Error(String),
    /// Whether the service can be reached.
    ConnectionStatus(bool),
    /// A record was created and has this identifier.
    Created(EntityType, Id),
    /// A record was updated.
    Updated(EntityType),
    /// The record with this identifier was deleted.
    Deleted(EntityType, Id),
}

/// Commands from the screen to the worker.
#[derive(Debug, Clone)]
pub enum ApiCommand {
    RefreshAll,
    RefreshProjects,
    RefreshClients,
    RefreshUsers,
    CheckConnection,
    Shutdown,
    CreateClient(CreateClientDto),
    UpdateClient(Id, UpdateClientDto),
    DeleteClient(Id),
    CreateProject(CreateProjectDto),
    UpdateProject(Id, UpdateProjectDto),
    DeleteProject(Id),
    CreateUser(CreateUserDto),
    UpdateUser(Id, UpdateUserDto),
    DeleteUser(Id),
}

impl ApiMessage {
    /// The kind of record a message reports a change of, if it reports one.
    pub open spec fn spec_changed_entity(self) -> Option<EntityType> {
        match self {
            ApiMessage::Created(entity, _) => Some(entity),
            ApiMessage::Deleted(entity, _) => Some(entity),
            ApiMessage::Updated(entity) => Some(entity),
            _ => None,
        }
    }

    pub fn changed_entity(&self) -> (entity: Option<EntityType>)
        ensures
            entity == self.spec_changed_entity(),
    {
        match self {
            ApiMessage::Created(entity, _) => Some(*entity),
            ApiMessage::Deleted(entity, _) => Some(*entity),
            ApiMessage::Updated(entity) => Some(*entity),
            _ => None,
        }
    }
}

/// The commands to send after a record of kind `entity` has changed: its
/// own kind is fetched anew, and after a change of a client or a user the
/// projects too, which show their names.
pub open spec fn refresh_commands(entity: EntityType) -> Seq<ApiCommand> {
    match entity {
        EntityType::Client => seq![ApiCommand::RefreshClients, ApiCommand::RefreshProjects],
        EntityType::Project => seq![ApiCommand::RefreshProjects],
        EntityType::User => seq![ApiCommand::RefreshUsers, ApiCommand::RefreshProjects],
    }
}

/// The commands with which the screen follows up on a message.
pub fn refresh_after(message: &ApiMessage) -> (commands: Vec<ApiCommand>)
    ensures
        commands@ == (match message.spec_changed_entity() {
            Some(entity) => refresh_commands(entity),
            None => Seq::empty(),
        }),
{
    let mut commands: Vec<ApiCommand> = Vec::new();
    match message.changed_entity() {
        Some(entity) => {
            commands.push(entity.refresh_command());
            match entity {
                EntityType::Client => {
                    commands.push(ApiCommand::RefreshProjects);
                },
                EntityType::User => {
                    commands.push(ApiCommand::RefreshProjects);
                },
                EntityType::Project => {},
            }
            assert(commands@ =~= refresh_commands(entity));
        },
        None => {},
    }
    commands
}

/// The page to ask for after page `page`, if the service said there is one more.
pub fn next_page(page: i32, has_next: bool) -> (next: Option<i32>)
    ensures
        next == (if has_next && page < i32::MAX {
            Some((page + 1) as i32)
        } else {
            None
        }),
{
    if has_next && page < i32::MAX {
        Some(page + 1)
    } else {
        None
    }
}

/// What the worker does with a command: which requests it makes.
#[derive(Debug, Clone, Copy, PartialEq, Eq, Structural)]
pub enum WorkerStep {
    /// Check the connection, then fetch everything if the service answers.
    CheckAndFetchAll,
    /// Fetch all records of one kind.
    Fetch(EntityType),
    /// Check the connection and report it.
    Check,
    /// Create a record of a kind.
    Create(EntityType),
    /// Update a record of a kind.
    Update(EntityType),
    /// Delete a record of a kind.
    Delete(EntityType),
    /// Stop working.
    Stop,
}

impl ApiCommand {
    pub open spec fn spec_step(self) -> WorkerStep {
        match self {
            ApiCommand::RefreshAll => WorkerStep::CheckAndFetchAll,
            ApiCommand::RefreshProjects => WorkerStep::Fetch(EntityType::Project),
            ApiCommand::RefreshClients => WorkerStep::Fetch(EntityType::Client),
            ApiCommand::RefreshUsers => WorkerStep::Fetch(EntityType::User),
            ApiCommand::CheckConnection => WorkerStep::Check,
            ApiCommand::Shutdown => WorkerStep::Stop,
            ApiCommand::CreateClient(_) => WorkerStep::Create(EntityType::Client),
            ApiCommand::UpdateClient(_, _) => WorkerStep::Update(EntityType::Client),
            ApiCommand::DeleteClient(_) => WorkerStep::Delete(EntityType::Client),
            ApiCommand::CreateProject(_) => WorkerStep::Create(EntityType::Project),
            ApiCommand::UpdateProject(_, _) => WorkerStep::Update(EntityType::Project),
            ApiCommand::DeleteProject(_) => WorkerStep::Delete(EntityType::Project),
            ApiCommand::CreateUser(_) => WorkerStep::Create(EntityType::User),
            ApiCommand::UpdateUser(_, _) => WorkerStep::Update(EntityType::User),
            ApiCommand::DeleteUser(_) => WorkerStep::Delete(EntityType::User),
        }
    }

    /// The step the worker takes for this command.
    pub fn step(&self) -> (step: WorkerStep)
        ensures
            step == self.spec_step(),
    {
        match self {
            ApiCommand::RefreshAll => WorkerStep::CheckAndFetchAll,
            ApiCommand::RefreshProjects => WorkerStep::Fetch(EntityType::Project),
            ApiCommand::RefreshClients => WorkerStep::Fetch(EntityType::Client),
            ApiCommand::RefreshUsers => WorkerStep::Fetch(EntityType::User),
            ApiCommand::CheckConnection => WorkerStep::Check,
            ApiCommand::Shutdown => WorkerStep::Stop,
            ApiCommand::CreateClient(_) => WorkerStep::Create(EntityType::Client),
            ApiCommand::UpdateClient(_, _) => WorkerStep::Update(EntityType::Client),
            ApiCommand::DeleteClient(_) => WorkerStep::Delete(EntityType::Client),
            ApiCommand::CreateProject(_) => WorkerStep::Create(EntityType::Project),
            ApiCommand::UpdateProject(_, _) => WorkerStep::Update(EntityType::Project),
            ApiCommand::DeleteProject(_) => WorkerStep::Delete(EntityType::Project),
            ApiCommand::CreateUser(_) => WorkerStep::Create(EntityType::User),
            ApiCommand::UpdateUser(_, _) => WorkerStep::Update(EntityType::User),
            ApiCommand::DeleteUser(_) => WorkerStep::Delete(EntityType::User),
        }
    }
}

/// The word for what a step does to a record, as error messages have it.
pub open spec fn step_verb(step: WorkerStep) -> Option<(&'static str, EntityType)> {
    match step {
        WorkerStep::Create(entity) => Some(("Create ", entity)),
        WorkerStep::Update(entity) => Some(("Update ", entity)),
        WorkerStep::Delete(entity) => Some(("Delete ", entity)),
        _ => None,
    }
}

/// The name of a kind of record in the middle of a sentence.
pub open spec fn lower_name(entity: EntityType) -> &'static str {
    match entity {
        EntityType::Client => "client",
        EntityType::Project => "project",
        EntityType::User => "user",
    }
}

fn lower(entity: EntityType) -> (name: &'static str)
    ensures
        name == lower_name(entity),
{
    match entity {
        EntityType::Client => "client",
        EntityType::Project => "project",
        EntityType::User => "user",
    }
}

/// The text of the error that reports a failed change: what was tried, on
/// which kind of record, and what the service or the network said.
pub open spec fn failure_text(
    verb: &'static str,
    entity: EntityType,
    cause: Seq<char>,
) -> Seq<char> {
    verb@ + lower_name(entity)@ + " failed: "@ + cause
}

/// The message the worker sends when a change of a record failed; `None`
/// for steps that change no record.
pub fn failure_message(step: WorkerStep, cause: &str) -> (message: Option<ApiMessage>)
    ensures
        match step_verb(step) {
            Some((verb, entity)) => message is Some && message->0 is Error
                && message->0->Error_0@ == failure_text(verb, entity, cause@),
            None => message is None,
        },
{
    let (verb, entity) = match step {
        WorkerStep::Create(entity) => ("Create ", entity),
        WorkerStep::Update(entity) => ("Update ", entity),
        WorkerStep::Delete(entity) => ("Delete ", entity),
        _ => { return None; },
    };
    let mut text = concat3(verb, lower(entity), " failed: ");
    vstd::string::StringExecFns::append(&mut text, cause);
    Some(ApiMessage::Error(text))
}

/// The message the worker sends when a change of a record went through,
/// with the identifier the service answered with; `None` for steps that
/// change no record.
pub fn success_message(step: WorkerStep, id: Id) -> (message: Option<ApiMessage>)
    ensures
        message == (match step {
            WorkerStep::Create(entity) => Some(ApiMessage::Created(entity, id)),
            WorkerStep::Update(entity) => Some(ApiMessage::Updated(entity)),
            WorkerStep::Delete(entity) => Some(ApiMessage::Deleted(entity, id)),
            _ => None,
        }),
{
    match step {
        WorkerStep::Create(entity) => Some(ApiMessage::Created(entity, id)),
        WorkerStep::Update(entity) => Some(ApiMessage::Updated(entity)),
        WorkerStep::Delete(entity) => Some(ApiMessage::Deleted(entity, id)),
        _ => None,
    }
}

/// The address of one page of a listing.
pub open spec fn page_url(base_url: Seq<char>, entity: EntityType, page: nat, page_size: nat) -> Seq<
    char,
> {
    base_url + "/"@ + entity.spec_path()@ + "?page="@ + decimal_digits(page) + "&pageSize="@
        + decimal_digits(page_size)
}

/// The address of a listing as a whole, where records are created.
pub open spec fn collection_url(base_url: Seq<char>, entity: EntityType) -> Seq<char> {
    base_url + "/"@ + entity.spec_path()@
}

/// The address of page `page` of the listing of a kind of record, with
/// `page_size` records to the page.
pub fn listing_url(base_url: &str, entity: EntityType, page: u32, page_size: u32) -> (url: String)
    ensures
        url@ == page_url(base_url@, entity, page as nat, page_size as nat),
{
    let mut url = concat3(base_url, "/", entity.path());
    vstd::string::StringExecFns::append(&mut url, "?page=");
    let page_text = decimal(page as u64);
    vstd::string::StringExecFns::append(&mut url, page_text.as_str());
    vstd::string::StringExecFns::append(&mut url, "&pageSize=");
    let size_text = decimal(page_size as u64);
    vstd::string::StringExecFns::append(&mut url, size_text.as_str());
    url
}

/// The address of the records of a kind.
pub fn records_url(base_url: &str, entity: EntityType) -> (url: String)
    ensures
        url@ == collection_url(base_url@, entity),
{
    concat3(base_url, "/", entity.path())
}

/// The address of one record.
pub fn record_url(base_url: &str, entity: EntityType, id: Id) -> (url: String)
    ensures
        url@ == collection_url(base_url@, entity) + "/"@ + crate::models::id_text(id),
{
    let mut url = concat3(base_url, "/", entity.path());
    vstd::string::StringExecFns::append(&mut url, "/");
    let id_text = crate::models::id_to_text(id);
    vstd::string::StringExecFns::append(&mut url, id_text.as_str());
    url
}

/// The text of the error for an answer that reports no success: the
/// status as the service gave it, and the body of the answer.
pub fn error_text(status: &str, body: &str) -> (text: String)
    ensures
        text@ == "API error: "@ + status@ + " - "@ + body@,
{
    let mut text = concat3("API error: ", status, " - ");
    vstd::string::StringExecFns::append(&mut text, body);
    text
}

/// What the worker reports after it has looked for the service: whether
/// it answers, and an error where it does not.
pub fn connection_report(connected: bool) -> (messages: Vec<ApiMessage>)
    ensures
        messages@.len() == (if connected {
            1int
        } else {
            2int
        }),
        messages@[0] == ApiMessage::ConnectionStatus(connected),
        !connected ==> messages@[1] is Error && messages@[1]->Error_0@
            == "Cannot connect to API"@,
{
    let mut messages: Vec<ApiMessage> = Vec::new();
    messages.push(ApiMessage::ConnectionStatus(connected));
    if !connected {
        messages.push(ApiMessage::Error("Cannot connect to API".to_owned()));
    }
    messages
}

/// The message for the outcome of fetching the projects.
pub fn projects_report(outcome: Result<Vec<ProjectDto>, String>) -> (message: ApiMessage)
    ensures
        message == (match outcome {
            Ok(projects) => ApiMessage::ProjectsLoaded(projects),
            Err(cause) => ApiMessage::Error(cause),
        }),
{
    match outcome {
        Ok(projects) => ApiMessage::ProjectsLoaded(projects),
        Err(cause) => ApiMessage::Error(cause),
    }
}

/// The message for the outcome of fetching the clients.
pub fn clients_report(outcome: Result<Vec<ClientDto>, String>) -> (message: ApiMessage)
    ensures
        message == (match outcome {
            Ok(clients) => ApiMessage::ClientsLoaded(clients),
            Err(cause) => ApiMessage::Error(cause),
        }),
{
    match outcome {
        Ok(clients) => ApiMessage::ClientsLoaded(clients),
        Err(cause) => ApiMessage::Error(cause),
    }
}

/// The message for the outcome of fetching the users.
pub fn users_report(outcome: Result<Vec<UserDto>, String>) -> (message: ApiMessage)
    ensures
        message == (match outcome {
            Ok(users) => ApiMessage::UsersLoaded(users),
            Err(cause) => ApiMessage::Error(cause),
        }),
{
    match outcome {
        Ok(users) => ApiMessage::UsersLoaded(users),
        Err(cause) => ApiMessage::Error(cause),
    }
}

} // verus!
