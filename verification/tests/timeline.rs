use sweem_tui::bars::{BarGlyph, BarSegment, RowGeometry};
use sweem_tui::dates::{Date, MAX_DAY, MIN_DAY};
use sweem_tui::models::{ProjectDto, ProjectStatus};
use sweem_tui::timeline::{calculate_timeline_start, TimelineState};
use sweem_tui::zoom::Zoom;

fn project(start: i32, planned_end: i32, actual_end: Option<i32>) -> ProjectDto {
    ProjectDto {
        id: 1,
        client_id: 2,
        name: Some("P".to_string()),
        start_date: Date::new(start),
        planned_end_date: Date::new(planned_end),
        actual_end_date: actual_end.map(Date::new),
        manager_id: 3,
    }
}

fn state(scroll_offset: i64, quarters: u32) -> TimelineState {
    TimelineState {
        scroll_offset,
        selected_project: None,
        zoom: Zoom::from_quarters(quarters).unwrap(),
        animation_frame: 0,
    }
}

#[test]
fn default_state_is_at_epoch_with_one_day_per_column() {
    let s = TimelineState::default();
    assert_eq!(s.scroll_offset, 0);
    assert_eq!(s.selected_project, None);
    assert_eq!(s.zoom.quarters(), 4);
    assert_eq!(s.animation_frame, 0);
}

#[test]
fn zoom_levels_are_powers_of_two_in_range() {
    for q in [1u32, 2, 4, 8, 16, 32] {
        assert_eq!(Zoom::from_quarters(q).unwrap().quarters(), q);
    }
    for q in [0u32, 3, 5, 6, 7, 12, 56, 64, 128] {
        assert!(Zoom::from_quarters(q).is_none());
    }
}

#[test]
fn raw_column_formula() {
    let epoch = Date::new(100);
    // one day per column
    assert_eq!(state(0, 4).date_to_column_raw(Date::new(110), epoch), 10);
    assert_eq!(state(3, 4).date_to_column_raw(Date::new(110), epoch), 7);
    assert_eq!(state(20, 4).date_to_column_raw(Date::new(110), epoch), -10);
    // two days per column, rounding down also left of the edge
    assert_eq!(state(0, 8).date_to_column_raw(Date::new(105), epoch), 2);
    assert_eq!(state(0, 8).date_to_column_raw(Date::new(99), epoch), -1);
    assert_eq!(state(0, 8).date_to_column_raw(Date::new(98), epoch), -1);
    assert_eq!(state(0, 8).date_to_column_raw(Date::new(97), epoch), -2);
    // a quarter day per column
    assert_eq!(state(0, 1).date_to_column_raw(Date::new(103), epoch), 12);
    // half a day per column
    assert_eq!(state(1, 2).date_to_column_raw(Date::new(103), epoch), 4);
}

#[test]
fn raw_column_saturates_far_off() {
    let s = state(i64::MAX, 1);
    assert_eq!(s.date_to_column_raw(Date::new(i32::MIN), Date::new(i32::MAX)), i64::MIN);
}

#[test]
fn raw_column_is_monotonic_on_samples() {
    let epoch = Date::new(0);
    for q in [1u32, 2, 4, 8, 16, 32] {
        for scroll in [0i64, 3, 17] {
            let s = state(scroll, q);
            let mut last = i64::MIN;
            for d in -50..50 {
                let c = s.date_to_column_raw(Date::new(d), epoch);
                assert!(c >= last);
                last = c;
            }
        }
    }
}

#[test]
fn visible_column_clips() {
    let epoch = Date::new(0);
    let s = state(5, 4);
    assert_eq!(s.date_to_column(Date::new(5), epoch, 10), Some(0));
    assert_eq!(s.date_to_column(Date::new(14), epoch, 10), Some(9));
    assert_eq!(s.date_to_column(Date::new(15), epoch, 10), None);
    assert_eq!(s.date_to_column(Date::new(4), epoch, 10), None);
    assert_eq!(s.date_to_column(Date::new(5), epoch, 0), None);
}

#[test]
fn column_round_trip_stays_within_one_column() {
    let epoch = Date::new(1000);
    for q in [1u32, 2, 4, 8, 16, 32] {
        for scroll in [0i64, 1, 7] {
            let s = state(scroll, q);
            for d in 1000 + scroll as i32..1100 {
                let date = Date::new(d);
                let col = s.date_to_column_raw(date, epoch);
                let back = s.column_to_date(col, epoch).unwrap();
                assert!(back.days <= d);
                assert!(4 * (d - back.days) < q as i32);
                let exact = (4 * (d as i64 - 1000 - scroll)) % q as i64 == 0;
                assert_eq!(back.days == d, exact);
            }
        }
    }
}

#[test]
fn column_round_trip_left_of_the_view_and_far_out() {
    let epoch = Date::new(1000);
    for q in [1u32, 2, 4, 8, 16, 32] {
        for scroll in [0i64, 500, 1 << 40, 1 << 60] {
            let s = state(scroll, q);
            for d in [-100_000i32, 0, 999, 1000, 1001, 1234, 700_000] {
                let col = s.date_to_column_raw(Date::new(d), epoch);
                let back = s.column_to_date(col, epoch).unwrap();
                assert!(back.days <= d);
                assert!(4 * (d - back.days) < q as i32);
            }
        }
    }
}

#[test]
fn column_to_date_exact_values() {
    let epoch = Date::new(10);
    assert_eq!(state(5, 8).column_to_date(3, epoch), Some(Date::new(21)));
    assert_eq!(state(5, 2).column_to_date(3, epoch), Some(Date::new(16)));
    assert_eq!(state(0, 4).column_to_date(0, Date::new(MAX_DAY)), Some(Date::new(MAX_DAY)));
    assert_eq!(state(0, 4).column_to_date(1, Date::new(MAX_DAY)), None);
    // columns left of the view
    assert_eq!(state(5, 8).column_to_date(-1, epoch), Some(Date::new(13)));
    assert_eq!(state(5, 2).column_to_date(-3, epoch), Some(Date::new(13)));
    assert_eq!(state(5, 1).column_to_date(-1, epoch), Some(Date::new(14)));
}

#[test]
fn scroll_left_saturates_at_zero() {
    let mut s = state(5, 4);
    s.scroll_left(3);
    assert_eq!(s.scroll_offset, 2);
    s.scroll_left(7);
    assert_eq!(s.scroll_offset, 0);
    for _ in 0..100 {
        s.scroll_left(7);
        assert!(s.scroll_offset >= 0);
    }
    s.scroll_left(i64::MIN);
    assert_eq!(s.scroll_offset, i64::MAX);
}

#[test]
fn scroll_right_is_unbounded_but_never_negative() {
    let mut s = state(0, 4);
    s.scroll_right(7);
    assert_eq!(s.scroll_offset, 7);
    s.scroll_right(i64::MAX);
    assert_eq!(s.scroll_offset, i64::MAX);
    s.scroll_right(i64::MIN);
    assert_eq!(s.scroll_offset, 0);
    s.scroll_right(4);
    s.scroll_to_start();
    assert_eq!(s.scroll_offset, 0);
}

#[test]
fn zoom_stays_within_bounds() {
    let mut s = TimelineState::default();
    let mut seen = vec![s.zoom.quarters()];
    for _ in 0..10 {
        s.zoom_in();
        seen.push(s.zoom.quarters());
        assert!(s.zoom.quarters() >= 1 && s.zoom.quarters() <= 56);
    }
    assert_eq!(s.zoom.quarters(), 1);
    for _ in 0..10 {
        s.zoom_out();
        seen.push(s.zoom.quarters());
        assert!(s.zoom.quarters() >= 1 && s.zoom.quarters() <= 56);
    }
    assert_eq!(s.zoom.quarters(), 32);
    s.zoom_in();
    assert_eq!(s.zoom.quarters(), 16);
    assert_eq!(&seen[..4], &[4, 2, 1, 1]);
}

#[test]
fn select_next_wraps_around() {
    // as many calls as there are projects lead from no selection to index 0
    let mut s = TimelineState::default();
    s.select_next(3);
    assert_eq!(s.selected_project, Some(1));
    s.select_next(3);
    assert_eq!(s.selected_project, Some(2));
    s.select_next(3);
    assert_eq!(s.selected_project, Some(0));
    s.select_next(3);
    assert_eq!(s.selected_project, Some(1));
    let mut one = TimelineState::default();
    one.select_next(1);
    assert_eq!(one.selected_project, Some(0));
    one.select_next(1);
    assert_eq!(one.selected_project, Some(0));
}

#[test]
fn select_next_total_times_from_none_ends_on_the_first() {
    for total in 1..=12usize {
        let mut s = TimelineState::default();
        for _ in 0..total {
            s.select_next(total);
            assert!(s.selected_project.unwrap() < total);
        }
        assert_eq!(s.selected_project, Some(0));
        for start in 0..total {
            let mut s = TimelineState::default();
            s.selected_project = Some(start);
            for _ in 0..total {
                s.select_next(total);
            }
            assert_eq!(s.selected_project, Some(start));
        }
    }
}

#[test]
fn a_stale_selection_comes_back_into_the_list() {
    for total in 1..=5usize {
        for stale in total..total + 12 {
            let mut s = TimelineState::default();
            s.selected_project = Some(stale);
            s.select_previous(total);
            assert_eq!(s.selected_project, Some(total - 1));
            s.selected_project = Some(stale);
            s.select_next(total);
            assert_eq!(s.selected_project, Some(0));
        }
    }
    let mut s = TimelineState::default();
    s.selected_project = Some(10);
    s.select_previous(3);
    assert_eq!(s.selected_project, Some(2));
    s.selected_project = Some(usize::MAX);
    s.select_previous(3);
    assert_eq!(s.selected_project, Some(2));
}

#[test]
fn select_previous_wraps_around() {
    let mut s = TimelineState::default();
    s.selected_project = Some(0);
    s.select_previous(4);
    assert_eq!(s.selected_project, Some(3));
    s.select_previous(4);
    assert_eq!(s.selected_project, Some(2));
    let mut none = TimelineState::default();
    none.select_previous(4);
    assert_eq!(none.selected_project, Some(0));
}

#[test]
fn selection_is_cleared_for_an_empty_list() {
    let mut s = TimelineState::default();
    s.selected_project = Some(2);
    s.select_next(0);
    assert_eq!(s.selected_project, None);
    s.selected_project = Some(2);
    s.select_previous(0);
    assert_eq!(s.selected_project, None);
}

#[test]
fn stale_selection_goes_to_first_on_next() {
    let mut s = TimelineState::default();
    s.selected_project = Some(9);
    s.select_next(3);
    assert_eq!(s.selected_project, Some(0));
}

#[test]
fn tick_wraps() {
    let mut s = TimelineState::default();
    s.tick();
    assert_eq!(s.animation_frame, 1);
    s.animation_frame = u64::MAX;
    s.tick();
    assert_eq!(s.animation_frame, 0);
}

#[test]
fn timeline_start_is_earliest_project_or_lookback() {
    let today = Date::new(738_000);
    assert_eq!(calculate_timeline_start(&[], today), Date::new(737_970));
    let projects = vec![project(50, 60, None), project(20, 90, None), project(30, 31, None)];
    assert_eq!(calculate_timeline_start(&projects, today), Date::new(20));
}

#[test]
fn jump_to_project_starting_at_epoch_clamps_to_zero() {
    // one day per column, viewport 100, side panel 26
    let p = project(1000, 1010, None);
    let projects = vec![p.clone()];
    let mut s = state(40, 4);
    s.jump_to_project(&p, &projects, Date::new(2000), 100);
    assert_eq!(s.scroll_offset, 0);
    let epoch = calculate_timeline_start(&projects, Date::new(2000));
    let col = s.date_to_column(p.start_date, epoch, 74);
    assert_eq!(col, Some(0));
}

#[test]
fn jump_to_project_centers_midpoint_in_days() {
    // epoch day 0; project spans [100, 121]: midpoint 110
    let first = project(0, 1, None);
    let p = project(100, 121, None);
    let projects = vec![first, p.clone()];
    let today = Date::new(5000);
    // one day per column: offset (74 / 2) * 1 = 37 days
    let mut s = state(0, 4);
    s.jump_to_project(&p, &projects, today, 100);
    assert_eq!(s.scroll_offset, 110 - 37);
    assert_eq!(s.date_to_column_raw(Date::new(110), Date::new(0)), 37);
    // two days per column: offset 74 days
    let mut s = state(0, 8);
    s.jump_to_project(&p, &projects, today, 100);
    assert_eq!(s.scroll_offset, 110 - 74);
    assert_eq!(s.date_to_column_raw(Date::new(110), Date::new(0)), 37);
    // half a day per column: offset 18 days (37 columns are 18.5 days)
    let mut s = state(0, 2);
    s.jump_to_project(&p, &projects, today, 100);
    assert_eq!(s.scroll_offset, 110 - 18);
    // a degenerate viewport leaves no offset
    let mut s = state(0, 4);
    s.jump_to_project(&p, &projects, today, 20);
    assert_eq!(s.scroll_offset, 110);
}

#[test]
fn jump_to_project_is_idempotent() {
    let p = project(300, 420, Some(350));
    let projects = vec![project(10, 20, None), p.clone()];
    let today = Date::new(400);
    let mut s = state(999, 16);
    s.jump_to_project(&p, &projects, today, 100);
    let once = s.scroll_offset;
    s.jump_to_project(&p, &projects, today, 100);
    assert_eq!(s.scroll_offset, once);
    // midpoint of [300, 350] is 325; offset 37 columns of four days
    assert_eq!(once, 325 - 10 - 148);
}

#[test]
fn jump_to_project_passes_over_an_invalid_span() {
    let p = project(300, 200, None);
    let projects = vec![p.clone()];
    let mut s = state(77, 4);
    s.jump_to_project(&p, &projects, Date::new(400), 100);
    assert_eq!(s.scroll_offset, 77);
}

#[test]
fn center_on_today_puts_today_in_the_middle() {
    let projects = vec![project(1000, 1100, None)];
    let mut s = state(0, 4);
    s.center_on_today(&projects, Date::new(1200), 80);
    assert_eq!(s.scroll_offset, 160);
    assert_eq!(s.date_to_column(Date::new(1200), Date::new(1000), 80), Some(40));
    // without projects the timeline begins thirty days back
    let mut s = state(500, 4);
    s.center_on_today(&[], Date::new(1200), 80);
    assert_eq!(s.scroll_offset, 0);
    let mut s = state(500, 4);
    s.center_on_today(&[], Date::new(1200), 20);
    assert_eq!(s.scroll_offset, 20);
}

#[test]
fn bar_before_and_after_the_viewport_is_invisible() {
    let epoch = Date::new(0);
    let s = state(100, 4);
    assert_eq!(s.bar_segment(&project(10, 99, None), epoch, 50), None);
    assert_eq!(s.bar_segment(&project(150, 200, None), epoch, 50), None);
    assert_eq!(s.bar_segment(&project(100, 120, None), epoch, 0), None);
}

#[test]
fn bar_straddling_the_left_edge_starts_at_column_zero() {
    let epoch = Date::new(0);
    let s = state(100, 4);
    let seg = s.bar_segment(&project(90, 110, None), epoch, 50).unwrap();
    assert_eq!(
        seg,
        BarSegment { visible_start: 0, visible_end: 10, starts_in_view: false, ends_in_view: true }
    );
    let seg = s.bar_segment(&project(140, 400, None), epoch, 50).unwrap();
    assert_eq!(
        seg,
        BarSegment { visible_start: 40, visible_end: 49, starts_in_view: true, ends_in_view: false }
    );
    let seg = s.bar_segment(&project(0, 400, Some(120)), epoch, 50).unwrap();
    assert_eq!(seg.visible_end, 20);
}

#[test]
fn bar_of_an_invalid_span_is_not_drawn() {
    let s = state(0, 8);
    assert_eq!(s.bar_segment(&project(11, 10, None), Date::new(0), 50), None);
    assert_eq!(s.bar_segment(&project(10, 20, Some(9)), Date::new(0), 50), None);
}

#[test]
fn status_precedence() {
    let today = Date::new(100);
    assert_eq!(project(10, 50, Some(80)).status(today), ProjectStatus::Completed);
    assert_eq!(project(200, 300, Some(80)).status(today), ProjectStatus::Completed);
    assert_eq!(project(10, 50, None).status(today), ProjectStatus::Overdue);
    assert_eq!(project(150, 160, None).status(today), ProjectStatus::Pending);
    assert_eq!(project(50, 160, None).status(today), ProjectStatus::Active);
    assert_eq!(project(100, 100, None).status(today), ProjectStatus::Active);
    assert!(!project(10, 50, Some(80)).is_overdue(today));
    assert!(project(10, 50, None).is_overdue(today));
    assert!(project(150, 160, None).is_pending(today));
    assert!(project(10, 50, Some(80)).is_completed());
}

#[test]
fn scenario_active_and_overdue_projects() {
    // epoch day 0, today day 10
    let epoch = Date::new(0);
    let today = Date::new(10);
    let a = project(5, 20, None);
    let b = project(0, 8, None);
    assert_eq!(calculate_timeline_start(&[a.clone(), b.clone()], today), epoch);
    assert_eq!(a.status(today), ProjectStatus::Active);
    assert_eq!(b.status(today), ProjectStatus::Overdue);
    let s = state(0, 4);
    let seg = s.bar_segment(&a, epoch, 40).unwrap();
    assert_eq!((seg.visible_start, seg.visible_end), (5, 20));
    assert_eq!(s.today_on_bar(&seg, today, epoch, 40), Some(10));
    let seg_b = s.bar_segment(&b, epoch, 40).unwrap();
    assert_eq!(s.today_on_bar(&seg_b, today, epoch, 40), None);
}

#[test]
fn glyphs_of_a_bar() {
    let seg =
        BarSegment { visible_start: 2, visible_end: 6, starts_in_view: true, ends_in_view: true };
    assert_eq!(seg.glyph(2, false, 0), BarGlyph::LeftCap);
    assert_eq!(seg.glyph(6, false, 0), BarGlyph::RightCap);
    assert_eq!(seg.glyph(4, false, 0), BarGlyph::Full);
    assert_eq!(seg.glyph(4, true, 0), BarGlyph::Full);
    assert_eq!(seg.glyph(5, true, 0), BarGlyph::Dark);
    assert_eq!(seg.glyph(5, true, 2), BarGlyph::Full);
    let dot =
        BarSegment { visible_start: 3, visible_end: 3, starts_in_view: true, ends_in_view: true };
    assert_eq!(dot.glyph(3, false, 0), BarGlyph::Full);
    let clipped =
        BarSegment { visible_start: 0, visible_end: 6, starts_in_view: false, ends_in_view: true };
    assert_eq!(clipped.glyph(0, false, 0), BarGlyph::Full);
    assert_eq!(seg.length(), 5);
}

#[test]
fn row_geometry() {
    assert_eq!(
        RowGeometry::of_width(100),
        RowGeometry { name_width: 24, bar_offset: 26, bar_width: 73 }
    );
    assert_eq!(
        RowGeometry::of_width(10),
        RowGeometry { name_width: 9, bar_offset: 11, bar_width: 0 }
    );
    assert_eq!(RowGeometry::of_width(0).bar_width, 0);
}

#[test]
fn status_signs() {
    assert_eq!(ProjectStatus::Completed.sign(), '✓');
    assert_eq!(ProjectStatus::Overdue.sign(), '!');
    assert_eq!(ProjectStatus::Active.sign(), '●');
    assert_eq!(ProjectStatus::Pending.sign(), '●');
}

#[test]
fn calendar_bounds_match_the_date_library() {
    use_bounds();
}

fn use_bounds() {
    assert_eq!(chrono::Datelike::num_days_from_ce(&chrono::NaiveDate::MIN), MIN_DAY);
    assert_eq!(chrono::Datelike::num_days_from_ce(&chrono::NaiveDate::MAX), MAX_DAY);
    assert!(chrono::NaiveDate::from_num_days_from_ce_opt(MIN_DAY).is_some());
    assert!(chrono::NaiveDate::from_num_days_from_ce_opt(MAX_DAY).is_some());
    assert!(chrono::NaiveDate::from_num_days_from_ce_opt(MIN_DAY - 1).is_none());
    assert!(chrono::NaiveDate::from_num_days_from_ce_opt(MAX_DAY + 1).is_none());
}

#[test]
fn centering_lands_in_or_just_left_of_the_middle() {
    let epoch = Date::new(0);
    for q in [1u32, 2, 4, 8, 16, 32] {
        for width in [0u16, 1, 20, 74, 75, 80] {
            let target = Date::new(5000);
            let projects = vec![project(0, 1, None)];
            let mut s = state(0, q);
            s.center_on_today(&projects, target, width);
            let column = s.date_to_column_raw(target, epoch);
            let middle = (width / 2) as i64;
            assert!(column <= middle);
            if q >= 4 {
                assert_eq!(column, middle);
            }
            assert!((q as i64) * (middle - column) < 4);
        }
    }
}
