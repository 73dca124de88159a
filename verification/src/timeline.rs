//! The timeline viewport: where a date falls on screen, and how scrolling,
//! zooming, selecting and centering move the view.
//!
//! All quantities are kept in days until the last step. The left edge of
//! the view lies `scroll_offset` days after the epoch of the timeline, and
//! one column covers `zoom` days; a column is only ever the result of a
//! division of days by the zoom.

use vstd::prelude::*;
use vstd::arithmetic::div_mod::{
    lemma_div_is_ordered,
    lemma_fundamental_div_mod,
    lemma_mod_pos_bound,
};
use crate::dates::Date;
use crate::models::ProjectDto;
use crate::zoom::{Zoom, QUARTERS_PER_DAY};

verus! {

/// Columns that the name panel takes from the left of the viewport; they
/// carry no date axis.
pub const SIDE_PANEL_WIDTH: u16 = 26;

/// Days before today at which an empty timeline begins.
pub const LOOKBACK_DAYS: i32 = 30;

/// Up to this many days of scroll offset every column of every date can
/// be counted in 64 bits; further out, columns are cut to what fits.
pub const MAX_EXACT_SCROLL: i64 = 0x1000_0000_0000_0000;

// ---------------------------------------------------------------------
// Coordinate transform
// ---------------------------------------------------------------------

/// Days from the epoch to `date`; negative for dates before the epoch.
pub open spec fn days_from_epoch(epoch: Date, date: Date) -> int {
    date.days - epoch.days
}

/// The column a date falls in: its distance in days from the left edge,
/// divided by the zoom and rounded down. The zoom is given in quarter days
/// per column. The result may be negative or beyond the viewport.
pub open spec fn raw_column(epoch: Date, scroll_offset: int, zoom_quarters: int, date: Date) -> int {
    (QUARTERS_PER_DAY * (days_from_epoch(epoch, date) - scroll_offset)) / zoom_quarters
}

/// The column of a date if it lies within a viewport of `width` columns.
pub open spec fn visible_column(
    epoch: Date,
    scroll_offset: int,
    zoom_quarters: int,
    date: Date,
    width: int,
) -> Option<int> {
    let column = raw_column(epoch, scroll_offset, zoom_quarters, date);
    if 0 <= column < width {
        Some(column)
    } else {
        None
    }
}

/// Whole days covered by `columns` columns, rounded down.
pub open spec fn days_in_columns(columns: int, zoom_quarters: int) -> int {
    (columns * zoom_quarters) / (QUARTERS_PER_DAY as int)
}

/// Day number of the first day shown in a column: the inverse of
/// `raw_column`, up to rounding.
pub open spec fn day_for_column(epoch: Date, scroll_offset: int, zoom_quarters: int, column: int) -> int {
    epoch.days + scroll_offset + days_in_columns(column, zoom_quarters)
}

/// `v` brought into the range of a 64-bit signed integer.
pub open spec fn saturate(v: int) -> int {
    if v < i64::MIN {
        i64::MIN as int
    } else if v > i64::MAX {
        i64::MAX as int
    } else {
        v
    }
}

/// A scroll offset is never negative: `v` is raised to 0 where it is
/// below, and held at the largest offset that can be stored where it is above.
pub open spec fn clamp_scroll(v: int) -> int {
    if v < 0 {
        0
    } else if v > i64::MAX {
        i64::MAX as int
    } else {
        v
    }
}

/// Quotient rounded toward minus infinity.
fn floor_div(a: i128, b: i128) -> (q: i128)
    requires
        b > 0,
        a > i128::MIN,
    ensures
        q == a / b,
{
    if a >= 0 {
        a / b
    } else {
        let n: i128 = -a - 1;
        let k: i128 = n / b;
        proof {
            // a = -(n + 1), n = k * b + r with 0 <= r < b, so
            // a = (-k - 1) * b + (b - 1 - r) with 0 <= b - 1 - r < b.
            lemma_fundamental_div_mod(n as int, b as int);
            lemma_mod_pos_bound(n as int, b as int);
            let r = (n as int) % (b as int);
            assert(b * k == k * b) by (nonlinear_arith);
            assert((-k - 1) * b == -(k * b) - b) by (nonlinear_arith);
            assert(a == (-k - 1) * b + (b - 1 - r));
            vstd::arithmetic::div_mod::lemma_fundamental_div_mod_converse_div(
                a as int,
                b as int,
                -k - 1,
                b - 1 - r,
            );
        }
        -k - 1
    }
}

/// Quotient and remainder are the only `q` and `r` with `x == d * q + r`
/// and `0 <= r < d`.
proof fn lemma_quotient_unique(x: int, d: int, q: int, r: int)
    requires
        d > 0,
        0 <= r < d,
        x == d * q + r,
    ensures
        x / d == q,
        x % d == r,
{
    assert(d * q == q * d) by (nonlinear_arith);
    vstd::arithmetic::div_mod::lemma_fundamental_div_mod_converse(x, d, q, r);
}

/// Rounding down keeps the order: for a positive divisor, a smaller
/// dividend never gives a larger quotient.
pub proof fn lemma_floor_div_monotonic(a: int, b: int, d: int)
    requires
        a <= b,
        d > 0,
    ensures
        a / d <= b / d,
{
    lemma_div_is_ordered(a, b, d);
}

// ---------------------------------------------------------------------
// Viewport state
// ---------------------------------------------------------------------

/// The state of the viewport.
#[derive(Debug, Clone, Copy)]
pub struct TimelineState {
    /// Days from the epoch to the left edge of the view; never negative
    /// after any of the operations below.
    pub scroll_offset: i64,
    /// Index of the selected project in the list last shown, if any.
    pub selected_project: Option<usize>,
    /// Days per column.
    pub zoom: Zoom,
    /// Counter of frames drawn, for animation only; wraps around.
    pub animation_frame: u64,
}

/// The selection after "next" in a list of `total` projects. The
/// selection goes round the list: from each project to the one after,
/// and from the last to the first. No selection counts as the first
/// project, so that as many steps as there are projects lead from no
/// selection to the first project. A selection past the end of the list
/// wraps to the first project, as the last project does.
pub open spec fn next_selection(selected: Option<usize>, total: usize) -> Option<usize> {
    if total == 0 {
        None
    } else {
        match selected {
            Some(i) => if i < total - 1 {
                Some((i + 1) as usize)
            } else {
                Some(0)
            },
            None => if total > 1 {
                Some(1)
            } else {
                Some(0)
            },
        }
    }
}

/// The selection after "previous" in a list of `total` projects. The
/// selection goes round the list the other way: from each project to the
/// one before, and from the first to the last. From no selection it goes
/// to the first project. A selection past the end of the list goes to the
/// last project, the nearest before it.
pub open spec fn previous_selection(selected: Option<usize>, total: usize) -> Option<usize> {
    if total == 0 {
        None
    } else {
        match selected {
            Some(i) => if i == 0 || i > total {
                Some((total - 1) as usize)
            } else {
                Some((i - 1) as usize)
            },
            None => Some(0),
        }
    }
}

/// A selection is usable when it points into the list; a stale one, left
/// over from a longer list, counts as none wherever the selected project
/// is looked up.
pub open spec fn selection_in_range(selected: Option<usize>, total: usize) -> bool {
    selected is Some && selected->0 < total
}

impl Default for TimelineState {
    fn default() -> (state: TimelineState)
        ensures
            state == TimelineState::spec_initial(),
            state.zoom@ == QUARTERS_PER_DAY,
            state.wf(),
    {
        TimelineState {
            scroll_offset: 0,
            selected_project: None,
            zoom: Zoom::one_day(),
            animation_frame: 0,
        }
    }
}

impl TimelineState {
    /// The view at the epoch, one day per column, nothing selected.
    pub open spec fn spec_initial() -> TimelineState {
        TimelineState {
            scroll_offset: 0,
            selected_project: None,
            zoom: Zoom::spec_one_day(),
            animation_frame: 0,
        }
    }

    /// The view is valid when it does not begin before the epoch and the
    /// zoom is one of the levels.
    pub open spec fn wf(self) -> bool {
        self.scroll_offset >= 0 && self.zoom.wf()
    }

    /// The state with another scroll offset.
    pub open spec fn with_scroll(self, scroll_offset: int) -> TimelineState {
        TimelineState { scroll_offset: scroll_offset as i64, ..self }
    }

    /// The state after scrolling `amount` days toward earlier dates.
    pub open spec fn scrolled_left(self, amount: int) -> TimelineState {
        self.with_scroll(clamp_scroll(self.scroll_offset - amount))
    }

    /// The state after scrolling `amount` days toward later dates.
    pub open spec fn scrolled_right(self, amount: int) -> TimelineState {
        self.with_scroll(clamp_scroll(self.scroll_offset + amount))
    }

    pub open spec fn zoomed_in(self) -> TimelineState {
        TimelineState { zoom: self.zoom.spec_zoomed_in(), ..self }
    }

    pub open spec fn zoomed_out(self) -> TimelineState {
        TimelineState { zoom: self.zoom.spec_zoomed_out(), ..self }
    }

    /// The column of `date`, from this state and the epoch `start`.
    pub open spec fn column_of(self, date: Date, start: Date) -> int {
        raw_column(start, self.scroll_offset as int, self.zoom@, date)
    }

    /// Scroll left (earlier in time) by `amount` days, stopping at the epoch.
    pub fn scroll_left(&mut self, amount: i64)
        ensures
            *final(self) == old(self).scrolled_left(amount as int),
            final(self).scroll_offset >= 0,
            final(self).wf(),
    {
        proof {
            use_type_invariant(&self.zoom);
        }
        let target: i128 = self.scroll_offset as i128 - amount as i128;
        self.scroll_offset = clamp_to_scroll(target);
    }

    /// Scroll right (later in time) by `amount` days.
    pub fn scroll_right(&mut self, amount: i64)
        ensures
            *final(self) == old(self).scrolled_right(amount as int),
            final(self).scroll_offset >= 0,
            final(self).wf(),
    {
        proof {
            use_type_invariant(&self.zoom);
        }
        let target: i128 = self.scroll_offset as i128 + amount as i128;
        self.scroll_offset = clamp_to_scroll(target);
    }

    /// Back to the epoch: the view shows the timeline from its start.
    pub fn scroll_to_start(&mut self)
        ensures
            *final(self) == old(self).with_scroll(0),
            final(self).wf(),
    {
        proof {
            use_type_invariant(&self.zoom);
        }
        self.scroll_offset = 0;
    }

    /// Move the selection up, wrapping from the first project to the
    /// last. Whatever was selected, the new selection points into the list.
    pub fn select_previous(&mut self, total: usize)
        ensures
            *final(self) == (TimelineState {
                selected_project: previous_selection(old(self).selected_project, total),
                ..*old(self)
            }),
            total == 0 ==> final(self).selected_project is None,
            total > 0 ==> selection_in_range(final(self).selected_project, total),
            old(self).wf() ==> final(self).wf(),
    {
        if total == 0 {
            self.selected_project = None;
            return ;
        }
        self.selected_project = Some(
            match self.selected_project {
                Some(i) => if i == 0 || i > total {
                    total - 1
                } else {
                    i - 1
                },
                None => 0,
            },
        );
    }

    /// Move the selection down, wrapping from the last project to the
    /// first. Whatever was selected, the new selection points into the list.
    pub fn select_next(&mut self, total: usize)
        ensures
            *final(self) == (TimelineState {
                selected_project: next_selection(old(self).selected_project, total),
                ..*old(self)
            }),
            total == 0 ==> final(self).selected_project is None,
            total > 0 ==> selection_in_range(final(self).selected_project, total),
            old(self).wf() ==> final(self).wf(),
    {
        if total == 0 {
            self.selected_project = None;
            return ;
        }
        self.selected_project = Some(
            match self.selected_project {
                Some(i) => if i < total - 1 {
                    i + 1
                } else {
                    0
                },
                None => if total > 1 {
                    1
                } else {
                    0
                },
            },
        );
    }

    /// Zoom in: half as many days per column, down to the finest level.
    pub fn zoom_in(&mut self)
        ensures
            *final(self) == old(self).zoomed_in(),
            final(self).zoom@ == Zoom::zoomed_in_quarters(old(self).zoom@),
            final(self).zoom.wf(),
            old(self).wf() ==> final(self).wf(),
    {
        self.zoom = self.zoom.zoomed_in();
    }

    /// Zoom out: twice as many days per column, up to the coarsest level.
    pub fn zoom_out(&mut self)
        ensures
            *final(self) == old(self).zoomed_out(),
            final(self).zoom@ == Zoom::zoomed_out_quarters(old(self).zoom@),
            final(self).zoom.wf(),
            old(self).wf() ==> final(self).wf(),
    {
        self.zoom = self.zoom.zoomed_out();
    }

    /// Advance the animation by one frame.
    pub fn tick(&mut self)
        ensures
            *final(self) == (TimelineState {
                animation_frame: if old(self).animation_frame == u64::MAX {
                    0
                } else {
                    (old(self).animation_frame + 1) as u64
                },
                ..*old(self)
            }),
            old(self).wf() ==> final(self).wf(),
    {
        self.animation_frame = if self.animation_frame == u64::MAX {
            0
        } else {
            self.animation_frame + 1
        };
    }

    /// The column of `date`, counted from the left edge of the view; it may
    /// be negative or beyond the viewport. A column too far off to be
    /// counted in 64 bits is given as the nearest that can.
    pub fn date_to_column_raw(&self, date: Date, start: Date) -> (column: i64)
        ensures
            column == saturate(self.column_of(date, start)),
            i64::MIN <= self.column_of(date, start) <= i64::MAX ==> column == self.column_of(
                date,
                start,
            ),
            self.zoom.wf(),
    {
        let quarters: i128 = self.zoom.quarters() as i128;
        let days: i128 = date.days as i128 - start.days as i128 - self.scroll_offset as i128;
        let column: i128 = floor_div(4 * days, quarters);
        if column < i64::MIN as i128 {
            i64::MIN
        } else if column > i64::MAX as i128 {
            i64::MAX
        } else {
            column as i64
        }
    }

    /// The column of `date` if it lies in a viewport of `width` columns.
    pub fn date_to_column(&self, date: Date, start: Date, width: u16) -> (column: Option<u16>)
        ensures
            column is Some <==> 0 <= self.column_of(date, start) < width,
            column is Some ==> column->0 == self.column_of(date, start),
            match visible_column(start, self.scroll_offset as int, self.zoom@, date, width as int) {
                Some(c) => column == Some(c as u16),
                None => column is None,
            },
    {
        let column = self.date_to_column_raw(date, start);
        if column >= 0 && column < width as i64 {
            Some(column as u16)
        } else {
            None
        }
    }

    /// The first day shown in column `column`, which may lie left or
    /// right of the view; `None` where that day lies outside the calendar.
    pub fn column_to_date(&self, column: i64, start: Date) -> (date: Option<Date>)
        ensures
            date == start.spec_plus_days(
                self.scroll_offset + days_in_columns(column as int, self.zoom@),
            ),
            date is Some ==> date->0.days == day_for_column(
                start,
                self.scroll_offset as int,
                self.zoom@,
                column as int,
            ),
    {
        let quarters: i128 = self.zoom.quarters() as i128;
        assert(-0x8000_0000_0000_0000 * 56 <= column as i128 * quarters <= 0x8000_0000_0000_0000
            * 56) by (nonlinear_arith)
            requires
                -0x8000_0000_0000_0000 <= column <= 0x8000_0000_0000_0000,
                1 <= quarters <= 56,
        ;
        let whole_days: i128 = floor_div(column as i128 * quarters, 4);
        let offset: i128 = self.scroll_offset as i128 + whole_days;
        let target: i128 = start.days as i128 + offset;
        if crate::dates::MIN_DAY as i128 <= target && target <= crate::dates::MAX_DAY as i128 {
            Some(Date { days: target as i32 })
        } else {
            None
        }
    }
}

// ---------------------------------------------------------------------
// Epoch
// ---------------------------------------------------------------------

/// The earliest start date in a list of projects, as a day number. Only
/// meaningful for a list that is not empty.
pub open spec fn earliest_start(projects: Seq<ProjectDto>) -> int
    decreases projects.len(),
{
    if projects.len() <= 1 {
        if projects.len() == 1 {
            projects[0].start_date.days as int
        } else {
            0
        }
    } else {
        let before = earliest_start(projects.drop_last());
        let last = projects.last().start_date.days as int;
        if last < before {
            last
        } else {
            before
        }
    }
}

/// The epoch of the timeline: the earliest start date of the projects
/// shown, or a fixed number of days before today where there are none.
pub open spec fn timeline_epoch(projects: Seq<ProjectDto>, today: Date) -> Date {
    if projects.len() == 0 {
        Date { days: (today.days - LOOKBACK_DAYS) as i32 }
    } else {
        Date { days: earliest_start(projects) as i32 }
    }
}

/// The earliest start is the start of one of the projects, and no project
/// starts before it.
pub proof fn lemma_earliest_start_is_minimum(projects: Seq<ProjectDto>)
    requires
        projects.len() > 0,
    ensures
        forall|i: int|
            0 <= i < projects.len() ==> earliest_start(projects) <= (
            #[trigger] projects[i]).start_date.days,
        exists|i: int|
            0 <= i < projects.len() && earliest_start(projects) == (
            #[trigger] projects[i]).start_date.days,
    decreases projects.len(),
{
    if projects.len() == 1 {
        assert(earliest_start(projects) == projects[0].start_date.days);
    } else {
        let rest = projects.drop_last();
        lemma_earliest_start_is_minimum(rest);
        assert forall|i: int| 0 <= i < projects.len() implies earliest_start(projects) <= (
        #[trigger] projects[i]).start_date.days by {
            if i < projects.len() - 1 {
                assert(rest[i] == projects[i]);
            }
        }
        let w = choose|i: int|
            0 <= i < rest.len() && earliest_start(rest) == (#[trigger] rest[i]).start_date.days;
        assert(rest[w] == projects[w]);
        if projects.last().start_date.days < earliest_start(rest) {
            assert(earliest_start(projects) == projects[projects.len() - 1].start_date.days);
        } else {
            assert(earliest_start(projects) == projects[w].start_date.days);
        }
    }
}

/// The start date of the timeline: the earliest start among `projects`,
/// or thirty days before `today` for an empty list.
pub fn calculate_timeline_start(projects: &[ProjectDto], today: Date) -> (start: Date)
    requires
        today.is_valid(),
    ensures
        start == timeline_epoch(projects@, today),
        projects@.len() > 0 ==> forall|i: int|
            0 <= i < projects@.len() ==> start.days <= (#[trigger] projects@[i]).start_date.days,
        projects@.len() > 0 ==> exists|i: int|
            0 <= i < projects@.len() && start.days == (#[trigger] projects@[i]).start_date.days,
{
    let n = projects.len();
    if n == 0 {
        return Date { days: today.days - LOOKBACK_DAYS };
    }
    let mut best: i32 = projects[0].start_date.days;
    let mut i: usize = 1;
    assert(projects@.take(1).len() == 1);
    assert(projects@.take(1)[0] == projects@[0]);
    while i < n
        invariant
            1 <= i <= n,
            n == projects@.len(),
            best == earliest_start(projects@.take(i as int)),
        decreases n - i,
    {
        let candidate: i32 = projects[i].start_date.days;
        proof {
            let upto = projects@.take(i as int + 1);
            assert(upto.drop_last() =~= projects@.take(i as int));
            assert(upto.last() == projects@[i as int]);
        }
        if candidate < best {
            best = candidate;
        }
        i = i + 1;
    }
    proof {
        assert(projects@.take(n as int) =~= projects@);
        lemma_earliest_start_is_minimum(projects@);
    }
    Date { days: best }
}

// ---------------------------------------------------------------------
// Centering
// ---------------------------------------------------------------------

/// Columns left for the date axis in a viewport of `viewport_width`
/// columns, once the name panel is taken off; none in a viewport too
/// narrow for the panel.
pub open spec fn effective_width(viewport_width: int) -> int {
    if viewport_width > SIDE_PANEL_WIDTH {
        viewport_width - SIDE_PANEL_WIDTH
    } else {
        0
    }
}

/// Days between the left edge and the middle column of an axis `width`
/// columns wide: half the width, turned from columns into days.
pub open spec fn center_offset_days(width: int, zoom_quarters: int) -> int {
    days_in_columns(width / 2, zoom_quarters)
}

/// The scroll offset that puts the day `target_days` days after the epoch
/// in the middle column, or 0 where that would be before the epoch.
pub open spec fn centered_scroll(target_days: int, width: int, zoom_quarters: int) -> int {
    let offset = target_days - center_offset_days(width, zoom_quarters);
    if offset < 0 {
        0
    } else {
        offset
    }
}

/// The middle day of a project's span, rounded down.
pub open spec fn span_midpoint(project: ProjectDto) -> int {
    project.start_date.days + project.span_days() / 2
}

/// The scroll offset that centers a project in the date axis.
pub open spec fn jump_scroll(
    project: ProjectDto,
    epoch: Date,
    zoom_quarters: int,
    viewport_width: int,
) -> int {
    centered_scroll(
        span_midpoint(project) - epoch.days,
        effective_width(viewport_width),
        zoom_quarters,
    )
}

fn center_scroll(target_days: i64, width: u16, zoom: &Zoom) -> (offset: i64)
    requires
        -0x1_0000_0000 <= target_days <= 0x1_0000_0000,
    ensures
        offset == centered_scroll(target_days as int, width as int, zoom@),
        offset >= 0,
{
    let quarters: u64 = zoom.quarters() as u64;
    let half: u64 = (width / 2) as u64;
    assert(half * quarters <= 32767 * 56) by (nonlinear_arith)
        requires
            half <= 32767,
            quarters <= 56,
    ;
    let center_offset: i64 = ((half * quarters) / 4) as i64;
    let offset: i64 = target_days - center_offset;
    if offset < 0 {
        0
    } else {
        offset
    }
}

impl TimelineState {
    /// The state after centering the view on `today`.
    pub open spec fn centered_on_today(
        self,
        projects: Seq<ProjectDto>,
        today: Date,
        width: int,
    ) -> TimelineState {
        self.with_scroll(
            centered_scroll(
                days_from_epoch(timeline_epoch(projects, today), today),
                width,
                self.zoom@,
            ),
        )
    }

    /// The state after jumping to `project`. A project whose span ends
    /// before it starts is passed over: the state stays as it is.
    pub open spec fn jumped_to(
        self,
        project: ProjectDto,
        projects: Seq<ProjectDto>,
        today: Date,
        viewport_width: int,
    ) -> TimelineState {
        if project.span_valid() {
            self.with_scroll(
                jump_scroll(project, timeline_epoch(projects, today), self.zoom@, viewport_width),
            )
        } else {
            self
        }
    }

    /// Center the timeline on today: today's column becomes the middle one
    /// of a date axis `width` columns wide, unless the view would have to
    /// begin before the epoch; then it begins at the epoch.
    pub fn center_on_today(&mut self, projects: &[ProjectDto], today: Date, width: u16)
        requires
            today.is_valid(),
        ensures
            *final(self) == old(self).centered_on_today(projects@, today, width as int),
            final(self).scroll_offset >= 0,
            final(self).wf(),
    {
        proof {
            use_type_invariant(&self.zoom);
        }
        let start = calculate_timeline_start(projects, today);
        let days_from_start = today.days_since(start);
        self.scroll_offset = center_scroll(days_from_start, width, &self.zoom);
    }

    /// Jump to a project and center it: the middle day of its span becomes
    /// the middle column of the date axis, which is the viewport without
    /// the name panel. The offset of the middle column is turned from
    /// columns into days before it is taken from the day of the target.
    pub fn jump_to_project(
        &mut self,
        project: &ProjectDto,
        projects: &[ProjectDto],
        today: Date,
        viewport_width: u16,
    )
        requires
            today.is_valid(),
        ensures
            *final(self) == old(self).jumped_to(*project, projects@, today, viewport_width as int),
            project.span_valid() ==> final(self).scroll_offset >= 0,
            project.span_valid() || old(self).wf() ==> final(self).wf(),
    {
        proof {
            use_type_invariant(&self.zoom);
        }
        if !project.has_valid_span() {
            return ;
        }
        let timeline_start = calculate_timeline_start(projects, today);
        let project_end = project.effective_end();
        let span: i64 = project_end.days_since(project.start_date);
        let project_mid: i64 = project.start_date.days as i64 + span / 2;
        let days_from_start: i64 = project_mid - timeline_start.days as i64;
        let effective: u16 = if viewport_width > SIDE_PANEL_WIDTH {
            viewport_width - SIDE_PANEL_WIDTH
        } else {
            0
        };
        self.scroll_offset = center_scroll(days_from_start, effective, &self.zoom);
    }
}

// ---------------------------------------------------------------------
// What holds of the transform and of the operations
// ---------------------------------------------------------------------

/// Time runs from left to right: with the epoch, the scroll offset and a
/// positive zoom fixed, a later date never falls in an earlier column.
pub proof fn lemma_raw_column_monotonic(
    epoch: Date,
    scroll_offset: int,
    zoom_quarters: int,
    d1: Date,
    d2: Date,
)
    requires
        zoom_quarters > 0,
        d1.days < d2.days,
    ensures
        raw_column(epoch, scroll_offset, zoom_quarters, d1) <= raw_column(
            epoch,
            scroll_offset,
            zoom_quarters,
            d2,
        ),
{
    lemma_floor_div_monotonic(
        QUARTERS_PER_DAY * (days_from_epoch(epoch, d1) - scroll_offset),
        QUARTERS_PER_DAY * (days_from_epoch(epoch, d2) - scroll_offset),
        zoom_quarters,
    );
}

/// From a date to its column and back: the first day of the column of a
/// date is never after the date and less than one column's worth of days
/// before it. The two are the same day exactly when the zoom divides the
/// distance of the date from the left edge evenly.
pub proof fn lemma_column_round_trip(
    epoch: Date,
    scroll_offset: int,
    zoom_quarters: int,
    date: Date,
)
    requires
        crate::zoom::valid_zoom_quarters(zoom_quarters),
    ensures
        ({
            let column = raw_column(epoch, scroll_offset, zoom_quarters, date);
            let day = day_for_column(epoch, scroll_offset, zoom_quarters, column);
            let distance = QUARTERS_PER_DAY * (days_from_epoch(epoch, date) - scroll_offset);
            &&& day <= date.days
            &&& QUARTERS_PER_DAY * (date.days - day) < zoom_quarters
            &&& (day == date.days <==> distance % zoom_quarters == 0)
        }),
{
    Zoom::lemma_power_of_two_steps(zoom_quarters);
    let y = days_from_epoch(epoch, date) - scroll_offset;
    let q = zoom_quarters;
    let column = raw_column(epoch, scroll_offset, q, date);
    assert(column == (4 * y) / q);
    if q == 1 {
        assert(column == 4 * y);
        assert((column * 1) / 4 == y);
        assert((4 * y) % 1 == 0);
    } else if q == 2 {
        assert(column == 2 * y);
        assert((column * 2) / 4 == y);
        assert((4 * y) % 2 == 0);
    } else {
        let z = q / 4;
        assert(q == 4 * z && z >= 1);
        lemma_fundamental_div_mod(y, z);
        vstd::arithmetic::div_mod::lemma_mod_bound(y, z);
        let c = y / z;
        let r = y % z;
        // 4y = q * c + 4r with 0 <= 4r < q
        assert(4 * y == q * c + 4 * r) by (nonlinear_arith)
            requires
                y == z * c + r,
                q == 4 * z,
        ;
        lemma_quotient_unique(4 * y, q, c, 4 * r);
        assert(column == c);
        assert(column * q == 4 * (c * z)) by (nonlinear_arith)
            requires
                column == c,
                q == 4 * z,
        ;
        assert((column * q) / 4 == c * z);
        assert(c * z == z * c) by (nonlinear_arith);
        assert(days_in_columns(column, q) == y - r);
    }
}

/// From a date to the column that is handed out for it and back to the
/// date that is handed out for that column. While the view is not
/// scrolled further than `MAX_EXACT_SCROLL` days, no column is cut to fit
/// 64 bits, and the way back leads to the first day of the column: never
/// after the date, and less than one column's worth of days before it.
pub proof fn lemma_stored_column_round_trip(state: TimelineState, date: Date, start: Date)
    requires
        state.zoom.wf(),
        -MAX_EXACT_SCROLL <= state.scroll_offset <= MAX_EXACT_SCROLL,
    ensures
        ({
            let column = saturate(state.column_of(date, start));
            let back = start.spec_plus_days(
                state.scroll_offset + days_in_columns(column, state.zoom@),
            );
            let distance = QUARTERS_PER_DAY * (days_from_epoch(start, date) - state.scroll_offset);
            &&& column == state.column_of(date, start)
            &&& crate::dates::MIN_DAY + 14 <= date.days <= crate::dates::MAX_DAY ==> back is Some
            &&& back is Some ==> {
                &&& back->0.days <= date.days
                &&& QUARTERS_PER_DAY * (date.days - back->0.days) < state.zoom@
                &&& (back->0 == date <==> distance % state.zoom@ == 0)
            }
        }),
{
    let q = state.zoom@;
    let x = QUARTERS_PER_DAY * (days_from_epoch(start, date) - state.scroll_offset);
    let c = x / q;
    lemma_fundamental_div_mod(x, q);
    vstd::arithmetic::div_mod::lemma_mod_bound(x, q);
    let r = x % q;
    if x >= 0 {
        assert(0 <= c <= x) by (nonlinear_arith)
            requires
                x == q * c + r,
                0 <= r < q,
                q >= 1,
                x >= 0,
        ;
    } else {
        assert(x <= c <= 0) by (nonlinear_arith)
            requires
                x == q * c + r,
                0 <= r < q,
                q >= 1,
                x < 0,
        ;
    }
    assert(state.column_of(date, start) == c);
    lemma_column_round_trip(start, state.scroll_offset as int, q, date);
}

/// Jumping to a project twice gives what jumping once gave: the target
/// depends on the project, the projects shown, the zoom and the width, and
/// never on where the view was.
pub proof fn lemma_jump_idempotent(
    state: TimelineState,
    project: ProjectDto,
    projects: Seq<ProjectDto>,
    today: Date,
    viewport_width: int,
)
    ensures
        state.jumped_to(project, projects, today, viewport_width).jumped_to(
            project,
            projects,
            today,
            viewport_width,
        ) == state.jumped_to(project, projects, today, viewport_width),
        state.centered_on_today(projects, today, viewport_width).centered_on_today(
            projects,
            today,
            viewport_width,
        ) == state.centered_on_today(projects, today, viewport_width),
{
}

/// Centering puts the target where it belongs: unless the view had to be
/// held at the epoch, a date `target_days` days after the epoch falls in
/// the middle column of the axis. With a day or more to the column it
/// falls exactly there; with less than a day to the column, the offset is
/// rounded down to whole days, and the date falls less than a day's worth
/// of columns left of the middle.
pub proof fn lemma_centering_hits_middle(
    epoch: Date,
    date: Date,
    width: int,
    zoom_quarters: int,
)
    requires
        crate::zoom::valid_zoom_quarters(zoom_quarters),
        width >= 0,
        days_from_epoch(epoch, date) >= center_offset_days(width, zoom_quarters),
    ensures
        ({
            let scroll = centered_scroll(days_from_epoch(epoch, date), width, zoom_quarters);
            let column = raw_column(epoch, scroll, zoom_quarters, date);
            &&& scroll == days_from_epoch(epoch, date) - center_offset_days(width, zoom_quarters)
            &&& column <= width / 2
            &&& zoom_quarters >= QUARTERS_PER_DAY ==> column == width / 2
            &&& zoom_quarters * (width / 2 - column) < QUARTERS_PER_DAY
        }),
{
    Zoom::lemma_power_of_two_steps(zoom_quarters);
    let q = zoom_quarters;
    let h = width / 2;
    let m = (h * q) / 4;
    let scroll = centered_scroll(days_from_epoch(epoch, date), width, q);
    assert(center_offset_days(width, q) == m);
    assert(scroll == days_from_epoch(epoch, date) - m);
    let column = raw_column(epoch, scroll, q, date);
    assert(column == (4 * m) / q);
    if q == 1 {
        assert(h * 1 == h);
        assert(m == h / 4);
        assert(column == 4 * (h / 4));
    } else if q == 2 {
        assert(h * 2 == 2 * h);
        assert(m == (2 * h) / 4);
        assert(m == h / 2);
        assert(column == (4 * (h / 2)) / 2);
        assert(column == 2 * (h / 2));
    } else {
        let z = q / 4;
        assert(q == 4 * z && z >= 1);
        assert(h * q == 4 * (h * z)) by (nonlinear_arith)
            requires
                q == 4 * z,
        ;
        assert(m == h * z);
        assert(4 * m == q * h) by (nonlinear_arith)
            requires
                m == h * z,
                q == 4 * z,
        ;
        lemma_quotient_unique(4 * m, q, h, 0);
        assert(column == h);
        assert(q * (h - column) == 0) by (nonlinear_arith)
            requires
                column == h,
        ;
    }
}

/// The centering offset is counted in days, not columns: a project that
/// starts at the epoch, in a view where the middle column lies further
/// right than the middle of the project, is shown from the epoch.
pub proof fn lemma_jump_clamps_at_epoch(
    project: ProjectDto,
    epoch: Date,
    zoom_quarters: int,
    viewport_width: int,
)
    requires
        zoom_quarters > 0,
        project.span_valid(),
        span_midpoint(project) - epoch.days <= center_offset_days(
            effective_width(viewport_width),
            zoom_quarters,
        ),
    ensures
        jump_scroll(project, epoch, zoom_quarters, viewport_width) == 0,
{
}

/// No operation leaves a view that begins before the epoch or has a zoom
/// that is not one of the levels: scrolling, resetting, centering and
/// jumping give a valid view whatever the view was, and selecting,
/// zooming and the passing of a frame keep a valid view valid.
pub proof fn lemma_operations_keep_view_valid(
    state: TimelineState,
    amount: int,
    total: usize,
    project: ProjectDto,
    projects: Seq<ProjectDto>,
    today: Date,
    width: u16,
)
    requires
        state.wf(),
    ensures
        state.scrolled_left(amount).wf(),
        state.scrolled_right(amount).wf(),
        state.with_scroll(0).wf(),
        state.zoomed_in().wf(),
        state.zoomed_out().wf(),
        state.centered_on_today(projects, today, width as int).wf(),
        state.jumped_to(project, projects, today, width as int).wf(),
        (TimelineState {
            selected_project: next_selection(state.selected_project, total),
            ..state
        }).wf(),
        (TimelineState {
            selected_project: previous_selection(state.selected_project, total),
            ..state
        }).wf(),
{
    state.zoom.lemma_zoom_steps();
    lemma_centered_scroll_bounds(
        days_from_epoch(timeline_epoch(projects, today), today),
        width as int,
        state.zoom@,
    );
    lemma_centered_scroll_bounds(
        span_midpoint(project) - timeline_epoch(projects, today).days,
        effective_width(width as int),
        state.zoom@,
    );
}

/// A centered scroll offset is not negative, and no more than its target
/// where the target is not negative and the width is not either.
pub proof fn lemma_centered_scroll_bounds(target_days: int, width: int, zoom_quarters: int)
    requires
        width >= 0,
        zoom_quarters > 0,
        -0x1_0000_0000 <= target_days <= 0x1_0000_0000,
    ensures
        0 <= centered_scroll(target_days, width, zoom_quarters) <= 0x1_0000_0000,
{
    assert((width / 2) * zoom_quarters >= 0) by (nonlinear_arith)
        requires
            width / 2 >= 0,
            zoom_quarters > 0,
    ;
}

/// The state after scrolling left by each of `amounts` in turn.
pub open spec fn scrolled_left_each(state: TimelineState, amounts: Seq<int>) -> TimelineState
    decreases amounts.len(),
{
    if amounts.len() == 0 {
        state
    } else {
        scrolled_left_each(state, amounts.drop_last()).scrolled_left(amounts.last())
    }
}

/// However often and however far the view is scrolled left, its offset
/// does not fall below 0.
pub proof fn lemma_scroll_left_floor(state: TimelineState, amounts: Seq<int>)
    requires
        state.scroll_offset >= 0,
    ensures
        scrolled_left_each(state, amounts).scroll_offset >= 0,
        (forall|i: int| 0 <= i < amounts.len() ==> #[trigger] amounts[i] >= 0)
            ==> scrolled_left_each(state, amounts).scroll_offset <= state.scroll_offset,
    decreases amounts.len(),
{
    if amounts.len() > 0 {
        lemma_scroll_left_floor(state, amounts.drop_last());
        assert forall|i: int| 0 <= i < amounts.drop_last().len() implies (
        #[trigger] amounts.drop_last()[i]) == amounts[i] by {}
    }
}

/// The state after a run of zoom steps: `true` zooms in, `false` out.
pub open spec fn zoomed_each(state: TimelineState, steps: Seq<bool>) -> TimelineState
    decreases steps.len(),
{
    if steps.len() == 0 {
        state
    } else {
        let before = zoomed_each(state, steps.drop_last());
        if steps.last() {
            before.zoomed_in()
        } else {
            before.zoomed_out()
        }
    }
}

/// No run of zoom steps takes the zoom out of its range, or changes
/// anything but the zoom.
pub proof fn lemma_zoom_stays_in_range(state: TimelineState, steps: Seq<bool>)
    requires
        state.zoom.wf(),
    ensures
        zoomed_each(state, steps).zoom.wf(),
        crate::zoom::MIN_ZOOM_QUARTERS <= zoomed_each(state, steps).zoom@
            <= crate::zoom::MAX_ZOOM_QUARTERS,
        zoomed_each(state, steps).scroll_offset == state.scroll_offset,
        zoomed_each(state, steps).selected_project == state.selected_project,
    decreases steps.len(),
{
    if steps.len() > 0 {
        lemma_zoom_stays_in_range(state, steps.drop_last());
        zoomed_each(state, steps.drop_last()).zoom.lemma_zoom_steps();
    }
}

/// The selection after `count` times "next".
pub open spec fn next_selection_times(selected: Option<usize>, total: usize, count: nat) -> Option<
    usize,
>
    decreases count,
{
    if count == 0 {
        selected
    } else {
        next_selection(next_selection_times(selected, total, (count - 1) as nat), total)
    }
}

/// "Next" walks the list in order: from project `i`, `count` steps lead to
/// project `(i + count) mod total`.
pub proof fn lemma_next_selection_walks(i: usize, total: usize, count: nat)
    requires
        i < total,
    ensures
        next_selection_times(Some(i), total, count) == Some(((i + count) % (total as int)) as usize),
    decreases count,
{
    if count == 0 {
        vstd::arithmetic::div_mod::lemma_small_mod(i as nat, total as nat);
    } else {
        lemma_next_selection_walks(i, total, (count - 1) as nat);
        let before = (i + count - 1) % (total as int);
        lemma_mod_pos_bound(i + count - 1, total as int);
        lemma_fundamental_div_mod(i + count - 1, total as int);
        let k = (i + count - 1) / (total as int);
        if before < total - 1 {
            lemma_quotient_unique(
                i + count,
                total as int,
                k,
                before + 1,
            );
        } else {
            assert(i + count == total * (k + 1)) by (nonlinear_arith)
                requires
                    i + count - 1 == total * k + (total - 1),
            ;
            lemma_quotient_unique(
                i + count,
                total as int,
                k + 1,
                0,
            );
        }
    }
}

/// The selection wraps around. In a list that is not empty, as many
/// steps of "next" as there are projects lead from no selection to the
/// first project, and from any project back to it; "next" from the last
/// project selects the first, and "previous" from the first selects the
/// last. Whatever was selected, stale or not, one step either way selects
/// a project of the list.
pub proof fn lemma_selection_wraps(total: usize)
    requires
        total > 0,
    ensures
        next_selection_times(None, total, total as nat) == Some(0usize),
        next_selection(None, total) == Some((1int % (total as int)) as usize),
        forall|i: usize|
            i < total ==> #[trigger] next_selection_times(Some(i), total, total as nat) == Some(i),
        previous_selection(Some(0usize), total) == Some((total - 1) as usize),
        next_selection(Some((total - 1) as usize), total) == Some(0usize),
        forall|selected: Option<usize>| #[trigger]
            selection_in_range(next_selection(selected, total), total),
        forall|selected: Option<usize>| #[trigger]
            selection_in_range(previous_selection(selected, total), total),
{
    assert forall|i: usize| i < total implies #[trigger] next_selection_times(
        Some(i),
        total,
        total as nat,
    ) == Some(i) by {
        lemma_next_selection_walks(i, total, total as nat);
        lemma_quotient_unique(i + total, total as int, 1, i as int);
    }
    lemma_next_steps_from_none(total, total as nat);
    vstd::arithmetic::div_mod::lemma_mod_self_0(total as int);
    if total > 1 {
        vstd::arithmetic::div_mod::lemma_small_mod(1, total as nat);
    }
}

/// From no selection, `count` steps of "next" lead to project
/// `count mod total`: no selection counts as the first project.
pub proof fn lemma_next_steps_from_none(total: usize, count: nat)
    requires
        total > 0,
        count >= 1,
    ensures
        next_selection_times(None, total, count) == Some((count % (total as nat)) as usize),
    decreases count,
{
    if count == 1 {
        assert(next_selection_times(None, total, 0) == None::<usize>);
        assert(next_selection_times(None, total, 1) == next_selection(
            next_selection_times(None, total, 0),
            total,
        ));
        if total > 1 {
            vstd::arithmetic::div_mod::lemma_small_mod(1, total as nat);
        } else {
            vstd::arithmetic::div_mod::lemma_mod_self_0(1);
        }
    } else {
        lemma_next_steps_from_none(total, (count - 1) as nat);
        let before = (count - 1) % (total as int);
        lemma_mod_pos_bound(count - 1, total as int);
        lemma_fundamental_div_mod(count - 1, total as int);
        let k = (count - 1) / (total as int);
        if before < total - 1 {
            lemma_quotient_unique(count as int, total as int, k, before + 1);
        } else {
            assert(count == total * (k + 1)) by (nonlinear_arith)
                requires
                    count - 1 == total * k + (total - 1),
            ;
            lemma_quotient_unique(count as int, total as int, k + 1, 0);
        }
    }
}

fn clamp_to_scroll(target: i128) -> (offset: i64)
    ensures
        offset == clamp_scroll(target as int),
{
    if target < 0 {
        0
    } else if target > i64::MAX as i128 {
        i64::MAX
    } else {
        target as i64
    }
}

} // verus!
