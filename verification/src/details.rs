//! What the lists and the detail panel say about clients and projects.

use vstd::prelude::*;
use crate::dates::{Date, DAY_2000};
use vstd::string::StringSliceAdditionalSpecFns;
use crate::models::{shown_name, ClientDto, Id, ProjectDto, ProjectStatus, UserDto};
use crate::text::{concat2, decimal, decimal_digits};

verus! {

/// Cells of the progress bar in the list of clients.
pub const CLIENT_BAR_CELLS: usize = 5;

/// Cells of the progress bar in the detail panel.
pub const DETAIL_BAR_CELLS: usize = 20;

/// How the progress of a client is shown.
#[derive(Debug, Clone, Copy, PartialEq, Eq, Structural)]
pub enum ProgressTone {
    /// The line is selected: as the rest of the line.
    Selected,
    /// The client has no projects.
    Empty,
    /// All projects are completed.
    Complete,
    /// At least half of the projects are completed.
    Halfway,
    /// Fewer than half are completed.
    Behind,
}

/// What the detail panel says about the deadline of a project.
#[derive(Debug, Clone, Copy, PartialEq, Eq, Structural)]
pub enum Deadline {
    /// The planned end lies before the year 2000: it was never set.
    NotSet,
    Completed,
    /// The planned end passed this many days ago.
    Overdue(u64),
    /// The planned end is this many days ahead.
    Left(u64),
}

/// The projects of a client.
pub open spec fn projects_of(projects: Seq<ProjectDto>, client_id: Id) -> Seq<ProjectDto> {
    projects.filter(|p: ProjectDto| p.client_id == client_id)
}

/// The completed projects of a client.
pub open spec fn completed_of(projects: Seq<ProjectDto>, client_id: Id) -> Seq<ProjectDto> {
    projects.filter(|p: ProjectDto| p.client_id == client_id && p.actual_end_date is Some)
}

/// How many projects a client has, and how many of them are completed:
/// `(completed, total)`.
pub fn calculate_client_project_counts(projects: &[ProjectDto], client_id: Id) -> (counts: (
    usize,
    usize,
))
    ensures
        counts.0 == completed_of(projects@, client_id).len(),
        counts.1 == projects_of(projects@, client_id).len(),
        counts.0 <= counts.1 <= projects@.len(),
{
    let n = projects.len();
    let mut completed: usize = 0;
    let mut total: usize = 0;
    let mut i: usize = 0;
    let ghost mine = |p: ProjectDto| p.client_id == client_id;
    let ghost done = |p: ProjectDto| p.client_id == client_id && p.actual_end_date is Some;
    assert(projects@.take(0) =~= Seq::<ProjectDto>::empty());
    while i < n
        invariant
            i <= n,
            n == projects@.len(),
            mine == (|p: ProjectDto| p.client_id == client_id),
            done == (|p: ProjectDto| p.client_id == client_id && p.actual_end_date is Some),
            completed == projects@.take(i as int).filter(done).len(),
            total == projects@.take(i as int).filter(mine).len(),
            completed <= total <= i,
        decreases n - i,
    {
        proof {
            let upto = projects@.take(i as int + 1);
            assert(upto.drop_last() =~= projects@.take(i as int));
            assert(upto.last() == projects@[i as int]);
            reveal(Seq::filter);
        }
        if projects[i].client_id == client_id {
            total = total + 1;
            if projects[i].is_completed() {
                completed = completed + 1;
            }
        }
        i = i + 1;
    }
    assert(projects@.take(n as int) =~= projects@);
    (completed, total)
}

/// Filled cells of the progress bar of a client: five times the share
/// of completed projects, rounded down.
pub open spec fn client_bar_filled(completed: usize, total: usize) -> int {
    if total == 0 {
        0
    } else if completed * 5 / (total as int) > 5 {
        5
    } else {
        completed * 5 / (total as int)
    }
}

/// Filled and empty cells of the progress bar of a client.
pub fn client_progress_cells(completed: usize, total: usize) -> (cells: (usize, usize))
    ensures
        cells.0 == client_bar_filled(completed, total),
        cells.0 + cells.1 == CLIENT_BAR_CELLS,
{
    if total == 0 {
        return (0, CLIENT_BAR_CELLS);
    }
    let share: u128 = completed as u128 * 5 / total as u128;
    let filled: usize = if share > 5 {
        5
    } else {
        share as usize
    };
    (filled, CLIENT_BAR_CELLS - filled)
}

/// How the progress of a client is shown.
pub fn client_progress_tone(completed: usize, total: usize, selected: bool) -> (tone: ProgressTone)
    ensures
        tone == (if selected {
            ProgressTone::Selected
        } else if total == 0 {
            ProgressTone::Empty
        } else if completed == total {
            ProgressTone::Complete
        } else if 2 * completed >= total {
            ProgressTone::Halfway
        } else {
            ProgressTone::Behind
        }),
{
    if selected {
        ProgressTone::Selected
    } else if total == 0 {
        ProgressTone::Empty
    } else if completed == total {
        ProgressTone::Complete
    } else if completed as u128 * 2 >= total as u128 {
        ProgressTone::Halfway
    } else {
        ProgressTone::Behind
    }
}

/// The text that counts the completed among all projects, as `3/7`.
pub fn client_progress_label(completed: usize, total: usize) -> (label: String)
    ensures
        label@ == decimal_digits(completed as nat) + "/"@ + decimal_digits(total as nat),
{
    let done = decimal(completed as u64);
    let all = decimal(total as u64);
    crate::text::concat3(done.as_str(), "/", all.as_str())
}

impl ProjectDto {
    /// What the detail panel says about the deadline on `today`.
    pub open spec fn spec_deadline(self, today: Date) -> Deadline {
        if self.planned_end_date.days < DAY_2000 {
            Deadline::NotSet
        } else if self.actual_end_date is Some {
            Deadline::Completed
        } else if self.planned_end_date.days < today.days {
            Deadline::Overdue((today.days - self.planned_end_date.days) as u64)
        } else {
            Deadline::Left((self.planned_end_date.days - today.days) as u64)
        }
    }

    pub fn deadline(&self, today: Date) -> (deadline: Deadline)
        ensures
            deadline == self.spec_deadline(today),
    {
        if self.planned_end_date.is_unset() {
            Deadline::NotSet
        } else if self.is_completed() {
            Deadline::Completed
        } else {
            let days = self.planned_end_date.days_since(today);
            if days < 0 {
                Deadline::Overdue((-days) as u64)
            } else {
                Deadline::Left(days as u64)
            }
        }
    }

    /// Days the project is planned to last, counted as at least one.
    pub fn planned_days(&self) -> (days: i64)
        ensures
            days == (if self.planned_end_date.days - self.start_date.days < 1 {
                1
            } else {
                self.planned_end_date.days - self.start_date.days
            }),
            days >= 1,
    {
        let duration = self.duration_days();
        if duration < 1 {
            1
        } else {
            duration
        }
    }

    /// Days since the start of the project on `today`; none before it starts.
    pub fn elapsed_days(&self, today: Date) -> (days: i64)
        ensures
            days == (if today.days < self.start_date.days {
                0
            } else {
                today.days - self.start_date.days
            }),
            days >= 0,
    {
        let elapsed = today.days_since(self.start_date);
        if elapsed < 0 {
            0
        } else {
            elapsed
        }
    }
}

impl Deadline {
    pub open spec fn spec_text(self) -> Seq<char> {
        match self {
            Deadline::NotSet => "Not Set"@,
            Deadline::Completed => "Completed"@,
            Deadline::Overdue(days) => decimal_digits(days as nat) + " days OVERDUE"@,
            Deadline::Left(days) => decimal_digits(days as nat) + " days left"@,
        }
    }

    /// The words of the detail panel for the deadline.
    pub fn text(&self) -> (text: String)
        ensures
            text@ == self.spec_text(),
    {
        match self {
            Deadline::NotSet => "Not Set".to_owned(),
            Deadline::Completed => "Completed".to_owned(),
            Deadline::Overdue(days) => {
                let count = decimal(*days);
                concat2(count.as_str(), " days OVERDUE")
            },
            Deadline::Left(days) => {
                let count = decimal(*days);
                concat2(count.as_str(), " days left")
            },
        }
    }
}

impl ProjectStatus {
    pub open spec fn spec_label(self) -> &'static str {
        match self {
            ProjectStatus::Completed => "DONE",
            ProjectStatus::Overdue => "LATE",
            ProjectStatus::Pending => "PLANNED",
            ProjectStatus::Active => "ACTIVE",
        }
    }

    /// The word of the detail panel for the status.
    pub fn label(&self) -> (label: &'static str)
        ensures
            label == self.spec_label(),
    {
        match self {
            ProjectStatus::Completed => "DONE",
            ProjectStatus::Overdue => "LATE",
            ProjectStatus::Pending => "PLANNED",
            ProjectStatus::Active => "ACTIVE",
        }
    }

    /// The color that stands for the status: green for completed, red
    /// for overdue, dim for pending, blue for active.
    pub fn color(&self) -> (hex: u32)
        ensures
            hex == (match *self {
                ProjectStatus::Completed => crate::theme::GREEN,
                ProjectStatus::Overdue => crate::theme::RED,
                ProjectStatus::Pending => crate::theme::FG_DIM,
                ProjectStatus::Active => crate::theme::BLUE,
            }),
    {
        match self {
            ProjectStatus::Completed => crate::theme::GREEN,
            ProjectStatus::Overdue => crate::theme::RED,
            ProjectStatus::Pending => crate::theme::FG_DIM,
            ProjectStatus::Active => crate::theme::BLUE,
        }
    }
}

/// The name shown for the client with identifier `id`: that of the first
/// client in the list that has it, or a note that there is none.
pub open spec fn client_name_of(clients: Seq<ClientDto>, id: Id) -> Seq<char>
    decreases clients.len(),
{
    if clients.len() == 0 {
        "Unknown ID"@
    } else if clients[0].id == id {
        shown_name(clients[0].name, "Unnamed Client")
    } else {
        client_name_of(clients.drop_first(), id)
    }
}

/// The name shown for the user with identifier `id`.
pub open spec fn user_name_of(users: Seq<UserDto>, id: Id) -> Seq<char>
    decreases users.len(),
{
    if users.len() == 0 {
        "Unknown ID"@
    } else if users[0].id == id {
        shown_name(users[0].name, "Unnamed User")
    } else {
        user_name_of(users.drop_first(), id)
    }
}

/// The name of the client of a project, for the detail panel.
pub fn client_name_for(clients: &[ClientDto], id: Id) -> (name: &str)
    ensures
        name@ == client_name_of(clients@, id),
{
    let n = clients.len();
    let mut i: usize = 0;
    assert(clients@.skip(0) =~= clients@);
    while i < n
        invariant
            i <= n,
            n == clients@.len(),
            client_name_of(clients@, id) == client_name_of(clients@.skip(i as int), id),
        decreases n - i,
    {
        proof {
            assert(clients@.skip(i as int)[0] == clients@[i as int]);
            assert(clients@.skip(i as int).drop_first() =~= clients@.skip(i as int + 1));
        }
        if clients[i].id == id {
            return clients[i].display_name();
        }
        i = i + 1;
    }
    "Unknown ID"
}

/// The name of the manager of a project, for the detail panel.
pub fn manager_name_for(users: &[UserDto], id: Id) -> (name: &str)
    ensures
        name@ == user_name_of(users@, id),
{
    let n = users.len();
    let mut i: usize = 0;
    assert(users@.skip(0) =~= users@);
    while i < n
        invariant
            i <= n,
            n == users@.len(),
            user_name_of(users@, id) == user_name_of(users@.skip(i as int), id),
        decreases n - i,
    {
        proof {
            assert(users@.skip(i as int)[0] == users@[i as int]);
            assert(users@.skip(i as int).drop_first() =~= users@.skip(i as int + 1));
        }
        if users[i].id == id {
            return users[i].display_name();
        }
        i = i + 1;
    }
    "Unknown ID"
}

/// A password as a form shows it: one asterisk for each of its bytes.
pub fn masked(value: &str) -> (mask: String)
    ensures
        mask@ == Seq::new(crate::models::byte_len(value@), |i: int| '*'),
{
    crate::text::repeated('*', value.as_bytes().len())
}

} // verus!
