//! The radar view: projects around a center, nearer the closer their
//! planned end. This module holds the selection, the range and where a
//! project belongs; the angles and radii are drawn from these.

use vstd::prelude::*;
use vstd::arithmetic::div_mod::{lemma_fundamental_div_mod, lemma_mod_bound};
use crate::dates::Date;
use crate::models::{Id, ProjectDto};

verus! {

/// Days the radar reaches at the start.
pub const DEFAULT_RANGE_DAYS: u32 = 90;

/// The range is not narrowed at or below this many days.
pub const NARROW_RANGE_DAYS: u32 = 14;

/// The range is not widened at or above this many days.
pub const WIDE_RANGE_DAYS: u32 = 365;

/// Days by which one step changes the range.
pub const RANGE_STEP_DAYS: u32 = 7;

/// Bytes of an identifier.
pub const ID_BYTES: u32 = 16;

/// The state of the radar.
#[derive(Debug, Clone, Copy, PartialEq, Eq, Structural)]
pub struct RadarState {
    pub selected_index: Option<usize>,
    /// Days from the center to the rim.
    pub range_days: u32,
}

/// The ring of the radar a project is drawn in.
#[derive(Debug, Clone, Copy, PartialEq, Eq, Structural)]
pub enum RadarRing {
    /// The planned end lies before the year 2000: it was never set.
    Unset,
    /// The planned end has passed.
    Overdue,
    /// The planned end is this many days ahead.
    Ahead(i64),
}

/// The sum of the bytes of `rest`, the last with weight `position`, the
/// one before it with one less, and so on for `position` bytes.
pub open spec fn weighted_bytes(rest: int, position: int) -> int
    decreases position,
{
    if position <= 0 {
        0
    } else {
        (rest % 256) * position + weighted_bytes(rest / 256, position - 1)
    }
}

/// The direction, in whole degrees, in which the projects of a client
/// lie: its identifier's bytes, the first weighted 1 and the last 16,
/// summed up and taken modulo 360.
pub open spec fn client_degrees(id: Id) -> int {
    weighted_bytes(id as int, ID_BYTES as int) % 360
}

/// The selection after "next" on the radar: unchanged in an empty list.
pub open spec fn radar_next(selected: Option<usize>, total: usize) -> Option<usize> {
    if total == 0 {
        selected
    } else {
        match selected {
            Some(i) => Some(((i + 1) % (total as int)) as usize),
            None => Some(0),
        }
    }
}

/// The selection after "previous" on the radar: unchanged in an empty list.
pub open spec fn radar_prev(selected: Option<usize>, total: usize) -> Option<usize> {
    if total == 0 {
        selected
    } else {
        match selected {
            Some(i) => Some(((i + total - 1) % (total as int)) as usize),
            None => Some(0),
        }
    }
}

/// The index of the first project with identifier `id`, if there is one.
pub open spec fn project_position(projects: Seq<ProjectDto>, id: Id) -> Option<int> {
    if exists|i: int| 0 <= i < projects.len() && (#[trigger] projects[i]).id == id {
        Some(
            choose|i: int|
                0 <= i < projects.len() && (#[trigger] projects[i]).id == id && forall|j: int|
                    0 <= j < i ==> (#[trigger] projects[j]).id != id,
        )
    } else {
        None
    }
}

impl Default for RadarState {
    fn default() -> (state: RadarState)
        ensures
            state == (RadarState { selected_index: None, range_days: DEFAULT_RANGE_DAYS }),
    {
        RadarState { selected_index: None, range_days: DEFAULT_RANGE_DAYS }
    }
}

impl RadarState {
    pub fn select_next(&mut self, total: usize)
        ensures
            final(self).selected_index == radar_next(old(self).selected_index, total),
            final(self).range_days == old(self).range_days,
            total > 0 ==> final(self).selected_index is Some && final(self).selected_index->0
                < total,
    {
        if total == 0 {
            return ;
        }
        self.selected_index = Some(
            match self.selected_index {
                Some(i) => {
                    proof {
                        lemma_step_forward(i as int, total as int);
                    }
                    let at = i % total;
                    if at + 1 < total {
                        at + 1
                    } else {
                        0
                    }
                },
                None => 0,
            },
        );
    }

    pub fn select_prev(&mut self, total: usize)
        ensures
            final(self).selected_index == radar_prev(old(self).selected_index, total),
            final(self).range_days == old(self).range_days,
            total > 0 ==> final(self).selected_index is Some && final(self).selected_index->0
                < total,
    {
        if total == 0 {
            return ;
        }
        self.selected_index = Some(
            match self.selected_index {
                Some(i) => {
                    proof {
                        lemma_step_back(i as int, total as int);
                    }
                    let at = i % total;
                    if at > 0 {
                        at - 1
                    } else {
                        total - 1
                    }
                },
                None => 0,
            },
        );
    }

    /// Narrow the range by a week, unless it is two weeks or less.
    pub fn zoom_in(&mut self)
        ensures
            final(self).selected_index == old(self).selected_index,
            final(self).range_days == (if old(self).range_days > NARROW_RANGE_DAYS {
                (old(self).range_days - RANGE_STEP_DAYS) as u32
            } else {
                old(self).range_days
            }),
    {
        if self.range_days > NARROW_RANGE_DAYS {
            self.range_days = self.range_days - RANGE_STEP_DAYS;
        }
    }

    /// Widen the range by a week, unless it is a year or more.
    pub fn zoom_out(&mut self)
        ensures
            final(self).selected_index == old(self).selected_index,
            final(self).range_days == (if old(self).range_days < WIDE_RANGE_DAYS {
                (old(self).range_days + RANGE_STEP_DAYS) as u32
            } else {
                old(self).range_days
            }),
    {
        if self.range_days < WIDE_RANGE_DAYS {
            self.range_days = self.range_days + RANGE_STEP_DAYS;
        }
    }

    /// Back to the range the radar starts with.
    pub fn center_on_today(&mut self, projects: &[ProjectDto], width: u16)
        ensures
            final(self).selected_index == old(self).selected_index,
            final(self).range_days == DEFAULT_RANGE_DAYS,
    {
        self.range_days = DEFAULT_RANGE_DAYS;
    }

    /// Select `project` where it is in the list; else nothing changes.
    pub fn jump_to_project(&mut self, project: &ProjectDto, projects: &[ProjectDto], width: u16)
        ensures
            final(self).range_days == old(self).range_days,
            final(self).selected_index == (match project_position(projects@, project.id) {
                Some(i) => Some(i as usize),
                None => old(self).selected_index,
            }),
    {
        let n = projects.len();
        let mut i: usize = 0;
        while i < n
            invariant
                i <= n,
                n == projects@.len(),
                *self == *old(self),
                forall|j: int| 0 <= j < i ==> (#[trigger] projects@[j]).id != project.id,
            decreases n - i,
        {
            if projects[i].id == project.id {
                proof {
                    let w = choose|k: int|
                        0 <= k < projects@.len() && (#[trigger] projects@[k]).id == project.id
                            && forall|j: int|
                            0 <= j < k ==> (#[trigger] projects@[j]).id != project.id;
                    assert(w == i) by {
                        if w < i {
                            assert(projects@[w].id != project.id);
                        }
                        if i < w {
                            assert(projects@[i as int].id != project.id);
                        }
                    }
                }
                self.selected_index = Some(i);
                return ;
            }
            i = i + 1;
        }
    }

    /// The ring in which a project with planned end `planned_end` is drawn on `today`.
    pub fn ring(planned_end: Date, today: Date) -> (ring: RadarRing)
        ensures
            ring == (if planned_end.days < crate::dates::DAY_2000 {
                RadarRing::Unset
            } else if planned_end.days < today.days {
                RadarRing::Overdue
            } else {
                RadarRing::Ahead((planned_end.days - today.days) as i64)
            }),
    {
        if planned_end.is_unset() {
            RadarRing::Unset
        } else {
            let days_left = planned_end.days_since(today);
            if days_left < 0 {
                RadarRing::Overdue
            } else {
                RadarRing::Ahead(days_left)
            }
        }
    }
}

proof fn lemma_step_forward(i: int, total: int)
    requires
        i >= 0,
        total > 0,
    ensures
        (i + 1) % total == (if i % total + 1 < total {
            i % total + 1
        } else {
            0
        }),
{
    lemma_fundamental_div_mod(i, total);
    lemma_mod_bound(i, total);
    let k = i / total;
    let r = i % total;
    assert(k * total == total * k) by (nonlinear_arith);
    if r + 1 < total {
        vstd::arithmetic::div_mod::lemma_fundamental_div_mod_converse(i + 1, total, k, r + 1);
    } else {
        assert(i + 1 == (k + 1) * total) by (nonlinear_arith)
            requires
                i == total * k + r,
                r + 1 == total,
        ;
        vstd::arithmetic::div_mod::lemma_fundamental_div_mod_converse(i + 1, total, k + 1, 0);
    }
}

proof fn lemma_step_back(i: int, total: int)
    requires
        i >= 0,
        total > 0,
    ensures
        (i + total - 1) % total == (if i % total > 0 {
            i % total - 1
        } else {
            total - 1
        }),
{
    lemma_fundamental_div_mod(i, total);
    lemma_mod_bound(i, total);
    let k = i / total;
    let r = i % total;
    if r > 0 {
        assert(i + total - 1 == (k + 1) * total + (r - 1)) by (nonlinear_arith)
            requires
                i == total * k + r,
        ;
        vstd::arithmetic::div_mod::lemma_fundamental_div_mod_converse(
            i + total - 1,
            total,
            k + 1,
            r - 1,
        );
    } else {
        assert(i + total - 1 == k * total + (total - 1)) by (nonlinear_arith)
            requires
                i == total * k + r,
                r == 0,
        ;
        vstd::arithmetic::div_mod::lemma_fundamental_div_mod_converse(
            i + total - 1,
            total,
            k,
            total - 1,
        );
    }
}

/// The direction, in whole degrees from 0 to 359, of the client `id`.
pub fn client_hash_to_angle(id: Id) -> (degrees: u32)
    ensures
        degrees == client_degrees(id),
        degrees < 360,
{
    let mut rest: u128 = id;
    let mut position: u32 = ID_BYTES;
    let mut sum: u32 = 0;
    while position > 0
        invariant
            position <= 16,
            sum <= 4080 * (16 - position),
            sum + weighted_bytes(rest as int, position as int) == weighted_bytes(
                id as int,
                ID_BYTES as int,
            ),
        decreases position,
    {
        let byte: u32 = (rest % 256) as u32;
        assert(0 <= byte * position <= 4080) by (nonlinear_arith)
            requires
                0 <= byte <= 255,
                0 <= position <= 16,
        ;
        let term: u32 = byte * position;
        sum = sum + term;
        rest = rest / 256;
        position = position - 1;
    }
    sum % 360
}

} // verus!
