//! What the timeline widget draws, worked out as plain values: the frame,
//! the time axis, the rows of the projects, the line that marks today,
//! the legend and the status line.

use vstd::prelude::*;
use crate::bars::{
    marker_on_bar,
    project_bar,
    BarSegment,
    RowGeometry,
    AXIS_ROWS,
    MIN_DRAWN_HEIGHT,
    MIN_DRAWN_WIDTH,
    NAME_COLUMN_WIDTH,
};
use crate::dates::{day_of_month, month_of_day, weekday_of_day, Date};
use crate::layout::Rect;
use crate::models::{shown_name, ProjectDto, ProjectStatus};
use crate::text::{concat3, decimal, decimal_digits, fit, fitted};
use crate::theme::{project_color, Rgb};
use crate::timeline::{
    calculate_timeline_start,
    days_in_columns,
    timeline_epoch,
    visible_column,
    TimelineState,
    SIDE_PANEL_WIDTH,
};

verus! {

/// Characters of the name column that are not the name: the marker, the
/// status sign, a space, and the space after the name.
pub const NAME_DECORATION: u16 = 4;

/// Columns a month label takes on the time axis.
pub const MONTH_LABEL_WIDTH: u16 = 3;

/// Columns a day label takes on the time axis.
pub const DAY_LABEL_WIDTH: u16 = 2;

/// Columns kept free at both ends of the legend, for the scroll hints.
pub const LEGEND_MARGIN: u16 = 6;

/// Frames for which a sparkle stays before the next one takes its place,
/// beside a selected row and at the end of the status line.
pub const ROW_SPARKLE_FRAMES: u64 = 4;

pub const STATUS_SPARKLE_FRAMES: u64 = 8;

/// Entries of the legend.
pub const LEGEND_ENTRIES: usize = 4;

/// The timeline widget: the projects it shows, the state of the view and
/// its title.
pub struct TimelineWidget<'a> {
    projects: &'a [ProjectDto],
    state: &'a TimelineState,
    title: &'a str,
}

/// The status line under the timeline.
pub struct TimelineStatusWidget<'a> {
    state: &'a TimelineState,
    project_count: usize,
}

/// The parts of the area inside the border of the timeline.
#[derive(Debug, Clone, Copy, PartialEq, Eq, Structural)]
pub struct TimelineFrame {
    /// The two rows of the time axis, right of the name panel.
    pub axis: Rect,
    /// The rows of the projects.
    pub rows: Rect,
    /// Projects that get a row.
    pub rows_shown: usize,
}

/// What is written above the axis in a column.
#[derive(Debug, Clone, Copy, PartialEq, Eq, Structural)]
pub enum AxisLabel {
    Blank,
    /// The short name of this month, from 1: the column shows its first day.
    Month(u32),
    /// This day of the month, in two digits: it is a multiple of seven.
    Day(u32),
}

/// How the axis line is drawn in a column.
#[derive(Debug, Clone, Copy, PartialEq, Eq, Structural)]
pub enum AxisMark {
    /// The column shows today.
    Today,
    /// The column shows a Saturday or a Sunday.
    Weekend,
    Weekday,
}

/// One column of the time axis.
#[derive(Debug, Clone, Copy, PartialEq, Eq, Structural)]
pub struct AxisCell {
    pub label: AxisLabel,
    pub mark: AxisMark,
}

/// One entry of the legend and the column at which it is drawn.
#[derive(Debug, Clone, Copy)]
pub struct LegendItem {
    pub icon: char,
    pub label: &'static str,
    pub color: u32,
    /// Column of the icon; the label follows it directly.
    pub x: u16,
}

/// The row of one project.
#[derive(Debug)]
pub struct ProjectRow {
    pub selected: bool,
    /// The sign at the left edge: a sparkle for the selected row, else a bar.
    pub marker: char,
    pub status: ProjectStatus,
    /// The color of the project in the palette.
    pub color: Rgb,
    /// The name, cut or filled to the width of its column.
    pub name: String,
    pub geometry: RowGeometry,
    /// The drawn part of the bar, if any of it is in view.
    pub segment: Option<BarSegment>,
    /// The column of the bar on which today is marked.
    pub today_column: Option<u16>,
}

/// The sparkle shown at step `step` of four.
pub open spec fn sparkle(step: int) -> char {
    if step == 0 {
        '\u{2726}'
    } else if step == 1 {
        '\u{2727}'
    } else if step == 2 {
        '\u{22c6}'
    } else {
        '\u{2605}'
    }
}

fn sparkle_at(step: u64) -> (c: char)
    ensures
        c == sparkle(step as int),
{
    if step == 0 {
        '\u{2726}'
    } else if step == 1 {
        '\u{2727}'
    } else if step == 2 {
        '\u{22c6}'
    } else {
        '\u{2605}'
    }
}

/// The sign at the left edge of a row.
pub open spec fn row_marker(selected: bool, animation_frame: u64) -> char {
    if selected {
        sparkle(((animation_frame / ROW_SPARKLE_FRAMES) % 4) as int)
    } else {
        '\u{2502}'
    }
}

/// The frame for the inner area `inner` and `count` projects: none for an
/// area under 30 columns or under 3 rows.
pub open spec fn frame_of(inner: Rect, count: nat) -> Option<TimelineFrame> {
    if inner.width < MIN_DRAWN_WIDTH || inner.height < MIN_DRAWN_HEIGHT {
        None
    } else {
        Some(
            TimelineFrame {
                axis: Rect {
                    x: (inner.x + SIDE_PANEL_WIDTH) as u16,
                    y: inner.y,
                    width: (inner.width - SIDE_PANEL_WIDTH - 1) as u16,
                    height: AXIS_ROWS,
                },
                rows: Rect {
                    x: inner.x,
                    y: (inner.y + AXIS_ROWS) as u16,
                    width: inner.width,
                    height: (inner.height - AXIS_ROWS) as u16,
                },
                rows_shown: if count <= inner.height - AXIS_ROWS {
                    count as usize
                } else {
                    (inner.height - AXIS_ROWS) as usize
                },
            },
        )
    }
}

/// The cell of the time axis for a day that is day `day` of month
/// `month` and day `weekday` of the week, in column `column` of `width`.
/// The first of a month is labelled with the month, if the label fits;
/// a day that is a multiple of seven with its number, if it fits and the
/// column is not the first. Today is marked, and so are the weekends.
pub open spec fn axis_cell_for(
    day: u32,
    month: u32,
    weekday: u32,
    is_today: bool,
    column: u16,
    width: u16,
) -> AxisCell {
    AxisCell {
        label: if day == 1 {
            if column + MONTH_LABEL_WIDTH <= width {
                AxisLabel::Month(month)
            } else {
                AxisLabel::Blank
            }
        } else if day % 7 == 0 && column > 0 && column + DAY_LABEL_WIDTH <= width {
            AxisLabel::Day(day)
        } else {
            AxisLabel::Blank
        },
        mark: if is_today {
            AxisMark::Today
        } else if weekday >= 5 {
            AxisMark::Weekend
        } else {
            AxisMark::Weekday
        },
    }
}

/// The cell of the time axis for the day with number `day`, column
/// `column` of `width`.
pub open spec fn axis_cell_of(day: int, today: Date, column: u16, width: u16) -> AxisCell {
    axis_cell_for(
        day_of_month(day) as u32,
        month_of_day(day) as u32,
        weekday_of_day(day) as u32,
        day == today.days,
        column,
        width,
    )
}

impl AxisCell {
    /// The cell for a day of which the place in the month and in the
    /// week is known.
    pub fn for_day(day: u32, month: u32, weekday: u32, is_today: bool, column: u16, width: u16) -> (cell:
        AxisCell)
        ensures
            cell == axis_cell_for(day, month, weekday, is_today, column, width),
    {
        let label = if day == 1 {
            if column as u32 + MONTH_LABEL_WIDTH as u32 <= width as u32 {
                AxisLabel::Month(month)
            } else {
                AxisLabel::Blank
            }
        } else if day % 7 == 0 && column > 0 && column as u32 + DAY_LABEL_WIDTH as u32
            <= width as u32 {
            AxisLabel::Day(day)
        } else {
            AxisLabel::Blank
        };
        let mark = if is_today {
            AxisMark::Today
        } else if weekday >= 5 {
            AxisMark::Weekend
        } else {
            AxisMark::Weekday
        };
        AxisCell { label, mark }
    }
}

/// A cell of the axis with nothing on it.
pub open spec fn plain_axis_cell() -> AxisCell {
    AxisCell { label: AxisLabel::Blank, mark: AxisMark::Weekday }
}

/// Whether the line that marks today is drawn bold in row `row`: every
/// third row, moving down by one row every three frames.
pub open spec fn glows(row: u16, animation_frame: u64) -> bool {
    (row + (animation_frame % 0x1_0000) / 3) % 3 == 0
}

/// The entries of the legend, in the order in which they are drawn.
pub open spec fn legend_entry(index: int) -> (char, &'static str, u32) {
    if index == 0 {
        ('\u{25cf}', "Active", crate::theme::BLUE)
    } else if index == 1 {
        ('\u{2713}', "Done", crate::theme::GREEN)
    } else if index == 2 {
        ('!', "Overdue", crate::theme::RED)
    } else {
        ('\u{2502}', "Today", crate::theme::YELLOW)
    }
}

/// Characters of the label of an entry of the legend.
pub open spec fn legend_label_len(index: int) -> int {
    if index == 0 {
        6
    } else if index == 1 {
        4
    } else if index == 2 {
        7
    } else {
        5
    }
}

/// Columns from the left edge of the area to the icon of an entry: each
/// entry takes its icon, its label and two spaces.
pub open spec fn legend_offset(index: int) -> int
    decreases index,
{
    if index <= 0 {
        LEGEND_MARGIN as int
    } else {
        legend_offset(index - 1) + legend_label_len(index - 1) + 3
    }
}

/// Entries of the legend that fit into an area `width` columns wide: an
/// entry is drawn while it, with four columns to spare, ends before the
/// margin on the right.
pub open spec fn legend_count(width: u16) -> int
    decreases LEGEND_ENTRIES - 0,
{
    if legend_offset(0) + legend_label_len(0) + 4 > width - LEGEND_MARGIN {
        0
    } else if legend_offset(1) + legend_label_len(1) + 4 > width - LEGEND_MARGIN {
        1
    } else if legend_offset(2) + legend_label_len(2) + 4 > width - LEGEND_MARGIN {
        2
    } else if legend_offset(3) + legend_label_len(3) + 4 > width - LEGEND_MARGIN {
        3
    } else {
        4
    }
}

fn legend_item(index: usize, x: u16) -> (item: LegendItem)
    requires
        index < LEGEND_ENTRIES,
    ensures
        item == (LegendItem {
            icon: legend_entry(index as int).0,
            label: legend_entry(index as int).1,
            color: legend_entry(index as int).2,
            x,
        }),
{
    if index == 0 {
        LegendItem { icon: '\u{25cf}', label: "Active", color: crate::theme::BLUE, x }
    } else if index == 1 {
        LegendItem { icon: '\u{2713}', label: "Done", color: crate::theme::GREEN, x }
    } else if index == 2 {
        LegendItem { icon: '!', label: "Overdue", color: crate::theme::RED, x }
    } else {
        LegendItem { icon: '\u{2502}', label: "Today", color: crate::theme::YELLOW, x }
    }
}

fn label_len(index: usize) -> (length: u16)
    requires
        index < LEGEND_ENTRIES,
    ensures
        length == legend_label_len(index as int),
{
    if index == 0 {
        6
    } else if index == 1 {
        4
    } else if index == 2 {
        7
    } else {
        5
    }
}

/// The legend in the lower border of `area`.
pub fn legend(area: Rect) -> (items: Vec<LegendItem>)
    requires
        area.wf(),
    ensures
        items@.len() == legend_count(area.width),
        forall|i: int|
            0 <= i < items@.len() ==> #[trigger] items@[i] == (LegendItem {
                icon: legend_entry(i).0,
                label: legend_entry(i).1,
                color: legend_entry(i).2,
                x: (area.x + legend_offset(i)) as u16,
            }),
{
    let mut items: Vec<LegendItem> = Vec::new();
    let mut offset: u16 = LEGEND_MARGIN;
    let mut index: usize = 0;
    reveal_with_fuel(legend_offset, 5);
    while index < LEGEND_ENTRIES
        invariant
            area.wf(),
            index <= LEGEND_ENTRIES,
            items@.len() == index,
            offset == legend_offset(index as int),
            offset <= 40,
            forall|i: int|
                0 <= i < index ==> legend_offset(i) + legend_label_len(i) + 4 <= area.width
                    - LEGEND_MARGIN,
            forall|i: int|
                0 <= i < items@.len() ==> #[trigger] items@[i] == (LegendItem {
                    icon: legend_entry(i).0,
                    label: legend_entry(i).1,
                    color: legend_entry(i).2,
                    x: (area.x + legend_offset(i)) as u16,
                }),
        ensures
            items@.len() == legend_count(area.width),
            forall|i: int|
                0 <= i < items@.len() ==> #[trigger] items@[i] == (LegendItem {
                    icon: legend_entry(i).0,
                    label: legend_entry(i).1,
                    color: legend_entry(i).2,
                    x: (area.x + legend_offset(i)) as u16,
                }),
        decreases LEGEND_ENTRIES - index,
    {
        reveal_with_fuel(legend_offset, 5);
        let length = label_len(index);
        if offset as u32 + length as u32 + 4 + LEGEND_MARGIN as u32 > area.width as u32 {
            break ;
        }
        items.push(legend_item(index, area.x + offset));
        offset = offset + length + 3;
        index = index + 1;
    }
    items
}

impl<'a> TimelineWidget<'a> {
    /// The title a timeline has unless it is given another.
    pub open spec fn default_title() -> &'static str {
        " \u{2728} Project Timeline "
    }

    pub closed spec fn spec_projects(self) -> Seq<ProjectDto> {
        self.projects@
    }

    pub closed spec fn spec_state(self) -> TimelineState {
        *self.state
    }

    pub closed spec fn spec_title(self) -> Seq<char> {
        self.title@
    }

    pub fn new(projects: &'a [ProjectDto], state: &'a TimelineState) -> (widget: Self)
        ensures
            widget.spec_projects() == projects@,
            widget.spec_state() == *state,
            widget.spec_title() == Self::default_title()@,
    {
        TimelineWidget { projects, state, title: " \u{2728} Project Timeline " }
    }

    /// The widget with another title.
    pub fn title(self, title: &'a str) -> (widget: Self)
        ensures
            widget.spec_projects() == self.spec_projects(),
            widget.spec_state() == self.spec_state(),
            widget.spec_title() == title@,
    {
        TimelineWidget { projects: self.projects, state: self.state, title }
    }

    pub fn title_text(&self) -> (title: &'a str)
        ensures
            title@ == self.spec_title(),
    {
        self.title
    }

    pub fn projects(&self) -> (projects: &'a [ProjectDto])
        ensures
            projects@ == self.spec_projects(),
    {
        self.projects
    }

    pub fn state(&self) -> (state: &'a TimelineState)
        ensures
            *state == self.spec_state(),
    {
        self.state
    }

    /// The epoch of the timeline on `today`.
    pub fn calculate_timeline_start(&self, today: Date) -> (start: Date)
        requires
            today.is_valid(),
        ensures
            start == timeline_epoch(self.spec_projects(), today),
    {
        calculate_timeline_start(self.projects, today)
    }

    /// The column of `date`, which may lie outside the view.
    pub fn date_to_column_raw(&self, date: Date, start: Date) -> (column: i64)
        ensures
            column == crate::timeline::saturate(self.spec_state().column_of(date, start)),
    {
        self.state.date_to_column_raw(date, start)
    }

    /// The column of `date` if it lies within `width` columns.
    pub fn date_to_column(&self, date: Date, start: Date, width: u16) -> (column: Option<u16>)
        ensures
            match visible_column(
                start,
                self.spec_state().scroll_offset as int,
                self.spec_state().zoom@,
                date,
                width as int,
            ) {
                Some(c) => column == Some(c as u16),
                None => column is None,
            },
    {
        self.state.date_to_column(date, start, width)
    }

    /// The parts of the area inside the border; `None` where the area is
    /// too small for anything to be drawn.
    pub fn frame(&self, inner: Rect) -> (frame: Option<TimelineFrame>)
        requires
            inner.wf(),
        ensures
            frame == frame_of(inner, self.spec_projects().len()),
            frame is Some ==> frame->0.axis.wf() && frame->0.rows.wf() && inner.contains(
                frame->0.axis,
            ) && inner.contains(frame->0.rows) && frame->0.rows_shown <= self.spec_projects().len(),
    {
        if inner.width < MIN_DRAWN_WIDTH || inner.height < MIN_DRAWN_HEIGHT {
            return None;
        }
        let rows_height: u16 = inner.height - AXIS_ROWS;
        let count = self.projects.len();
        Some(
            TimelineFrame {
                axis: Rect {
                    x: inner.x + SIDE_PANEL_WIDTH,
                    y: inner.y,
                    width: inner.width - SIDE_PANEL_WIDTH - 1,
                    height: AXIS_ROWS,
                },
                rows: Rect {
                    x: inner.x,
                    y: inner.y + AXIS_ROWS,
                    width: inner.width,
                    height: rows_height,
                },
                rows_shown: if count <= rows_height as usize {
                    count
                } else {
                    rows_height as usize
                },
            },
        )
    }

    /// Column `column` of a time axis `width` columns wide: what is
    /// written above the line and how the line is drawn. A column whose
    /// day lies outside the calendar is plain.
    pub fn axis_cell(&self, column: u16, width: u16, start: Date, today: Date) -> (cell: AxisCell)
        ensures
            cell == (match start.spec_plus_days(
                self.spec_state().scroll_offset + days_in_columns(
                    column as int,
                    self.spec_state().zoom@,
                ),
            ) {
                Some(date) => axis_cell_of(date.days as int, today, column, width),
                None => plain_axis_cell(),
            }),
    {
        let date = match self.state.column_to_date(column as i64, start) {
            Some(date) => date,
            None => {
                return AxisCell { label: AxisLabel::Blank, mark: AxisMark::Weekday };
            },
        };
        AxisCell::for_day(
            date.day(),
            date.month(),
            date.weekday_from_monday(),
            date.days == today.days,
            column,
            width,
        )
    }

    /// The row of the project at `index`, in an area `area_width` columns
    /// wide; `None` past the end of the list.
    pub fn row(&self, index: usize, area_width: u16, start: Date, today: Date) -> (row: Option<
        ProjectRow,
    >)
        ensures
            row is Some <==> index < self.spec_projects().len(),
            row is Some ==> ({
                let project = self.spec_projects()[index as int];
                let state = self.spec_state();
                let row = row->0;
                &&& row.selected == (state.selected_project == Some(index))
                &&& row.marker == row_marker(row.selected, state.animation_frame)
                &&& row.status == project.spec_status(today)
                &&& row.color == project_color(index)
                &&& row.geometry == RowGeometry::spec_of_width(area_width)
                &&& row.name@ == fitted(
                    shown_name(project.name, "Unnamed Project"),
                    (if row.geometry.name_width > NAME_DECORATION {
                        row.geometry.name_width - NAME_DECORATION
                    } else {
                        0
                    }) as nat,
                )
                &&& row.segment == project_bar(state, project, start, row.geometry.bar_width as int)
                &&& row.today_column == (match row.segment {
                    Some(segment) => marker_on_bar(
                        state,
                        segment,
                        today,
                        start,
                        row.geometry.bar_width as int,
                    ),
                    None => None,
                })
            }),
    {
        if index >= self.projects.len() {
            return None;
        }
        let project = &self.projects[index];
        let selected = match self.state.selected_project {
            Some(i) => i == index,
            None => false,
        };
        let marker = if selected {
            sparkle_at((self.state.animation_frame / ROW_SPARKLE_FRAMES) % 4)
        } else {
            '\u{2502}'
        };
        let geometry = RowGeometry::of_width(area_width);
        let name_cells: usize = if geometry.name_width > NAME_DECORATION {
            (geometry.name_width - NAME_DECORATION) as usize
        } else {
            0
        };
        let name = fit(project.display_name(), name_cells);
        let segment = self.state.bar_segment(project, start, geometry.bar_width);
        let today_column = match &segment {
            Some(segment) => self.state.today_on_bar(segment, today, start, geometry.bar_width),
            None => None,
        };
        Some(
            ProjectRow {
                selected,
                marker,
                status: project.status(today),
                color: crate::theme::get_project_color(index),
                name,
                geometry,
                segment,
                today_column,
            },
        )
    }

    /// The column of the bar area in which the line that marks today
    /// runs through all rows, in an area `area_width` columns wide.
    pub fn today_line(&self, area_width: u16, start: Date, today: Date) -> (column: Option<u16>)
        ensures
            match visible_column(
                start,
                self.spec_state().scroll_offset as int,
                self.spec_state().zoom@,
                today,
                (if area_width > NAME_COLUMN_WIDTH + 3 {
                    area_width - (NAME_COLUMN_WIDTH + 3)
                } else {
                    0
                }) as int,
            ) {
                Some(c) => column == Some(c as u16),
                None => column is None,
            },
    {
        let bar_width: u16 = if area_width > NAME_COLUMN_WIDTH + 3 {
            area_width - (NAME_COLUMN_WIDTH + 3)
        } else {
            0
        };
        self.state.date_to_column(today, start, bar_width)
    }

    /// Whether the line that marks today is drawn bold in row `row`.
    pub fn glow(&self, row: u16) -> (bold: bool)
        ensures
            bold == glows(row, self.spec_state().animation_frame),
    {
        let phase: u64 = (self.state.animation_frame % 0x1_0000) / 3;
        (row as u64 + phase) % 3 == 0
    }

    /// Whether the hint that the view can be scrolled left is shown.
    pub fn shows_left_hint(&self) -> (shown: bool)
        ensures
            shown == (self.spec_state().scroll_offset > 0),
    {
        self.state.scroll_offset > 0
    }
}

impl<'a> TimelineStatusWidget<'a> {
    pub closed spec fn spec_state(self) -> TimelineState {
        *self.state
    }

    pub closed spec fn spec_project_count(self) -> usize {
        self.project_count
    }

    /// The words about the selection: the number of the selected
    /// project, counted from 1, or `none`.
    pub open spec fn selection_text(selected: Option<usize>) -> Seq<char> {
        match selected {
            Some(i) => "\u{25b8} #"@ + decimal_digits((i + 1) as nat),
            None => "\u{25b8} none"@,
        }
    }

    /// The text of the status line: how many projects there are, which is
    /// selected, and the zoom.
    pub open spec fn spec_text(self) -> Seq<char> {
        "\u{1f4ca} "@ + decimal_digits(self.spec_project_count() as nat) + " projects  "@
            + Self::selection_text(self.spec_state().selected_project) + "  \u{26b2} "@
            + crate::zoom::Zoom::label_of(self.spec_state().zoom@)@ + "d/col"@
    }

    pub fn new(state: &'a TimelineState, project_count: usize) -> (widget: Self)
        ensures
            widget.spec_state() == *state,
            widget.spec_project_count() == project_count,
    {
        TimelineStatusWidget { state, project_count }
    }

    pub fn text(&self) -> (text: String)
        ensures
            text@ == self.spec_text(),
    {
        let count = decimal(self.project_count as u64);
        let mut text = concat3("\u{1f4ca} ", count.as_str(), " projects  ");
        match self.state.selected_project {
            Some(i) => {
                let number = crate::text::decimal_wide(i as u128 + 1);
                vstd::string::StringExecFns::append(&mut text, "\u{25b8} #");
                vstd::string::StringExecFns::append(&mut text, number.as_str());
            },
            None => {
                vstd::string::StringExecFns::append(&mut text, "\u{25b8} none");
            },
        }
        vstd::string::StringExecFns::append(&mut text, "  \u{26b2} ");
        vstd::string::StringExecFns::append(&mut text, self.state.zoom.label());
        vstd::string::StringExecFns::append(&mut text, "d/col");
        assert(text@ =~= self.spec_text());
        text
    }

    /// The sparkle at the end of the status line.
    pub fn sparkle(&self) -> (c: char)
        ensures
            c == sparkle(((self.spec_state().animation_frame / STATUS_SPARKLE_FRAMES) % 4) as int),
    {
        sparkle_at((self.state.animation_frame / STATUS_SPARKLE_FRAMES) % 4)
    }
}

} // verus!
