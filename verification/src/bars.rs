//! Layout of the project bars: which columns of the date axis a project's
//! bar covers, what is drawn in each of them, and where today is marked.

use vstd::prelude::*;
use crate::dates::Date;
use crate::models::{ProjectDto, ProjectStatus};
use crate::timeline::{raw_column, saturate, visible_column, TimelineState};

verus! {

/// Widest the name column of a row gets.
pub const NAME_COLUMN_WIDTH: u16 = 24;

/// Width below which nothing of the timeline is drawn.
pub const MIN_DRAWN_WIDTH: u16 = 30;

/// Height below which nothing of the timeline is drawn.
pub const MIN_DRAWN_HEIGHT: u16 = 3;

/// Rows that the time axis takes above the project rows.
pub const AXIS_ROWS: u16 = 2;

/// The part of a project's bar that lies inside the bar area.
#[derive(Debug, Clone, Copy, PartialEq, Eq, Structural)]
pub struct BarSegment {
    /// First column of the bar that is drawn.
    pub visible_start: u16,
    /// Last column of the bar that is drawn.
    pub visible_end: u16,
    /// Whether the bar begins at `visible_start`, rather than left of the area.
    pub starts_in_view: bool,
    /// Whether the bar ends at `visible_end`, rather than right of the area.
    pub ends_in_view: bool,
}

/// What is drawn in one column of a bar.
#[derive(Debug, Clone, Copy, PartialEq, Eq, Structural)]
pub enum BarGlyph {
    /// The left end of a bar.
    LeftCap,
    /// The right end of a bar.
    RightCap,
    /// The body of a bar.
    Full,
    /// The darker body that alternates with `Full` in a selected bar.
    Dark,
}

/// How a row of the timeline is divided into the name and the bar area.
#[derive(Debug, Clone, Copy, PartialEq, Eq, Structural)]
pub struct RowGeometry {
    /// Columns for the marker, the status sign and the name.
    pub name_width: u16,
    /// Column of the row at which the bar area begins.
    pub bar_offset: u16,
    /// Columns of the bar area; 0 where the row is too narrow for one.
    pub bar_width: u16,
}

/// A raw column brought into the bar area `[0, bar_width - 1]`.
pub open spec fn clip_column(raw: int, bar_width: int) -> int {
    if raw < 0 {
        0
    } else if raw > bar_width - 1 {
        bar_width - 1
    } else {
        raw
    }
}

/// A bar is hidden when it ends left of the area or begins right of it.
pub open spec fn bar_hidden(start_raw: int, end_raw: int, bar_width: int) -> bool {
    end_raw < 0 || start_raw >= bar_width
}

/// The drawn part of a bar from raw column `start_raw` to `end_raw` in an
/// area of `bar_width` columns: none for an area without columns, for a
/// hidden bar, and for one whose clipped end lies before its clipped start.
pub open spec fn clipped_bar(start_raw: int, end_raw: int, bar_width: int) -> Option<BarSegment> {
    if bar_width <= 0 || bar_hidden(start_raw, end_raw, bar_width) || clip_column(
        end_raw,
        bar_width,
    ) < clip_column(start_raw, bar_width) {
        None
    } else {
        Some(
            BarSegment {
                visible_start: clip_column(start_raw, bar_width) as u16,
                visible_end: clip_column(end_raw, bar_width) as u16,
                starts_in_view: start_raw >= 0,
                ends_in_view: end_raw <= bar_width - 1,
            },
        )
    }
}

/// The drawn part of a project's bar. A project whose span ends before it
/// starts has no bar.
pub open spec fn project_bar(
    state: TimelineState,
    project: ProjectDto,
    start: Date,
    bar_width: int,
) -> Option<BarSegment> {
    if project.span_valid() {
        clipped_bar(
            state.column_of(project.start_date, start),
            state.column_of(project.spec_effective_end(), start),
            bar_width,
        )
    } else {
        None
    }
}

/// The column in which today is marked on a bar: today's column, where it
/// lies in the bar area and within the drawn part of the bar.
pub open spec fn marker_on_bar(
    state: TimelineState,
    segment: BarSegment,
    today: Date,
    start: Date,
    bar_width: int,
) -> Option<u16> {
    match visible_column(start, state.scroll_offset as int, state.zoom@, today, bar_width) {
        Some(c) => if segment.visible_start <= c <= segment.visible_end {
            Some(c as u16)
        } else {
            None
        },
        None => None,
    }
}

/// Step of the pattern that runs through a selected bar.
pub open spec fn bar_phase(animation_frame: u64) -> int {
    ((animation_frame / 2) % 4) as int
}

/// What is drawn in column `column` of a bar: a cap where the bar begins
/// or ends there (the body where it does both), and else the body, which
/// in a selected bar alternates between full and dark and moves with the frame.
pub open spec fn glyph_at(
    segment: BarSegment,
    column: u16,
    selected: bool,
    animation_frame: u64,
) -> BarGlyph {
    let is_start = segment.starts_in_view && column == segment.visible_start;
    let is_end = segment.ends_in_view && column == segment.visible_end;
    if is_start && !is_end {
        BarGlyph::LeftCap
    } else if is_end && !is_start {
        BarGlyph::RightCap
    } else if selected {
        if (column + bar_phase(animation_frame)) % 2 == 0 {
            BarGlyph::Full
        } else {
            BarGlyph::Dark
        }
    } else {
        BarGlyph::Full
    }
}

/// The sign shown before the name of a project.
pub open spec fn status_sign(status: ProjectStatus) -> char {
    match status {
        ProjectStatus::Completed => '\u{2713}',
        ProjectStatus::Overdue => '!',
        _ => '\u{25cf}',
    }
}

impl RowGeometry {
    /// The division of a row `area_width` columns wide.
    pub open spec fn spec_of_width(area_width: u16) -> RowGeometry {
        let name_width = if area_width >= NAME_COLUMN_WIDTH + 1 {
            NAME_COLUMN_WIDTH as int
        } else if area_width >= 1 {
            area_width - 1
        } else {
            0
        };
        RowGeometry {
            name_width: name_width as u16,
            bar_offset: (name_width + 2) as u16,
            bar_width: if area_width > name_width + 3 {
                (area_width - (name_width + 3)) as u16
            } else {
                0
            },
        }
    }

    pub fn of_width(area_width: u16) -> (geometry: RowGeometry)
        ensures
            geometry == Self::spec_of_width(area_width),
            geometry.bar_width > 0 ==> geometry.bar_offset + geometry.bar_width < area_width,
    {
        let name_width: u16 = if area_width >= NAME_COLUMN_WIDTH + 1 {
            NAME_COLUMN_WIDTH
        } else if area_width >= 1 {
            area_width - 1
        } else {
            0
        };
        RowGeometry {
            name_width,
            bar_offset: name_width + 2,
            bar_width: if area_width > name_width + 3 {
                area_width - (name_width + 3)
            } else {
                0
            },
        }
    }
}

impl BarSegment {
    /// Columns drawn; a segment whose end lies before its start counts as one.
    pub fn length(&self) -> (n: u32)
        ensures
            n == (if self.visible_start <= self.visible_end {
                self.visible_end - self.visible_start + 1
            } else {
                1
            }),
    {
        if self.visible_end >= self.visible_start {
            (self.visible_end - self.visible_start) as u32 + 1
        } else {
            1
        }
    }

    pub fn glyph(&self, column: u16, selected: bool, animation_frame: u64) -> (g: BarGlyph)
        ensures
            g == glyph_at(*self, column, selected, animation_frame),
    {
        let is_start = self.starts_in_view && column == self.visible_start;
        let is_end = self.ends_in_view && column == self.visible_end;
        if is_start && !is_end {
            BarGlyph::LeftCap
        } else if is_end && !is_start {
            BarGlyph::RightCap
        } else if selected {
            let phase: u64 = (animation_frame / 2) % 4;
            if (column as u64 + phase) % 2 == 0 {
                BarGlyph::Full
            } else {
                BarGlyph::Dark
            }
        } else {
            BarGlyph::Full
        }
    }
}

impl ProjectStatus {
    /// The sign shown before the name of a project.
    pub fn sign(&self) -> (c: char)
        ensures
            c == status_sign(*self),
    {
        match self {
            ProjectStatus::Completed => '\u{2713}',
            ProjectStatus::Overdue => '!',
            _ => '\u{25cf}',
        }
    }
}

impl TimelineState {
    /// The drawn part of the bar of `project` in a bar area of `bar_width`
    /// columns, with `start` as the epoch; `None` where nothing of it is
    /// to be drawn.
    pub fn bar_segment(&self, project: &ProjectDto, start: Date, bar_width: u16) -> (segment:
        Option<BarSegment>)
        ensures
            segment == project_bar(*self, *project, start, bar_width as int),
            segment is Some ==> segment->0.visible_start <= segment->0.visible_end < bar_width,
            segment is Some <==> bar_width > 0 && project.span_valid() && !bar_hidden(
                self.column_of(project.start_date, start),
                self.column_of(project.spec_effective_end(), start),
                bar_width as int,
            ),
    {
        if bar_width == 0 || !project.has_valid_span() {
            return None;
        }
        let start_col_raw = self.date_to_column_raw(project.start_date, start);
        let end_col_raw = self.date_to_column_raw(project.effective_end(), start);
        proof {
            if project.start_date.days < project.spec_effective_end().days {
                crate::timeline::lemma_raw_column_monotonic(
                    start,
                    self.scroll_offset as int,
                    self.zoom@,
                    project.start_date,
                    project.spec_effective_end(),
                );
            } else {
                assert(project.start_date == project.spec_effective_end());
            }
        }
        if end_col_raw < 0 || start_col_raw >= bar_width as i64 {
            return None;
        }
        let last: i64 = bar_width as i64 - 1;
        let visible_start: u16 = clip(start_col_raw, last);
        let visible_end: u16 = clip(end_col_raw, last);
        if visible_end < visible_start {
            return None;
        }
        Some(
            BarSegment {
                visible_start,
                visible_end,
                starts_in_view: start_col_raw >= 0,
                ends_in_view: end_col_raw <= last,
            },
        )
    }

    /// The column of the bar on which today is marked, if today falls on
    /// the drawn part of the bar.
    pub fn today_on_bar(&self, segment: &BarSegment, today: Date, start: Date, bar_width: u16) -> (column:
        Option<u16>)
        ensures
            column == marker_on_bar(*self, *segment, today, start, bar_width as int),
    {
        match self.date_to_column(today, start, bar_width) {
            Some(today_col) => {
                if today_col >= segment.visible_start && today_col <= segment.visible_end {
                    Some(today_col)
                } else {
                    None
                }
            },
            None => None,
        }
    }
}

fn clip(raw: i64, last: i64) -> (column: u16)
    requires
        0 <= last < 0xffff,
    ensures
        column == clip_column(raw as int, last + 1),
{
    if raw < 0 {
        0
    } else if raw > last {
        last as u16
    } else {
        raw as u16
    }
}

/// What clipping does at the edges: a bar that ends left of the area and
/// one that begins right of it are not drawn, and a bar that reaches over
/// the left edge is drawn from column 0.
pub proof fn lemma_bar_clipping(start_raw: int, end_raw: int, bar_width: int)
    requires
        bar_width <= u16::MAX,
    ensures
        end_raw < 0 ==> clipped_bar(start_raw, end_raw, bar_width) is None,
        start_raw >= bar_width ==> clipped_bar(start_raw, end_raw, bar_width) is None,
        bar_width > 0 && start_raw < 0 <= end_raw ==> clipped_bar(start_raw, end_raw, bar_width)
            is Some && clipped_bar(start_raw, end_raw, bar_width)->0.visible_start == 0
            && !clipped_bar(start_raw, end_raw, bar_width)->0.starts_in_view,
        bar_width > 0 && start_raw <= end_raw && !bar_hidden(start_raw, end_raw, bar_width)
            ==> clipped_bar(start_raw, end_raw, bar_width) is Some,
        clipped_bar(start_raw, end_raw, bar_width) is Some ==> 0 <= clipped_bar(
            start_raw,
            end_raw,
            bar_width,
        )->0.visible_start <= clipped_bar(start_raw, end_raw, bar_width)->0.visible_end
            < bar_width,
{
}

} // verus!
