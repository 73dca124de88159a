use chrono::{Datelike, NaiveDate};
use sweem_tui::app::LogLevel;
use sweem_tui::bars::{BarSegment, RowGeometry};
use sweem_tui::calendar::{
    abbreviation_of_month, calendar_date, day_if_in_month, month_after, name_of_month,
    CalendarCell, DayKind, MonthPage,
};
use sweem_tui::dates::Date;
use sweem_tui::details::{
    calculate_client_project_counts, client_progress_cells, client_progress_label,
    client_name_for, client_progress_tone, manager_name_for, masked, Deadline, ProgressTone,
};
use sweem_tui::forms::FormType;
use sweem_tui::layout::{
    calendar_area, centered_rect, error_popup_area, visible_log_count, Rect,
};
use sweem_tui::models::{ClientDto, ProjectDto, ProjectStatus, Role, UserDto};
use sweem_tui::particles::ParticleMode;
use sweem_tui::radar::{client_hash_to_angle, RadarRing, RadarState};
use sweem_tui::theme::{get_project_color, get_project_color_dim, Rgb, BLUE, FG_DIM, GREEN, RED};
use sweem_tui::timeline::TimelineState;
use sweem_tui::widgets::{
    legend, AxisCell, AxisLabel, AxisMark, TimelineFrame, TimelineStatusWidget, TimelineWidget,
};
use sweem_tui::zoom::Zoom;

fn ymd(year: i32, month: u32, day: u32) -> Date {
    Date::new(NaiveDate::from_ymd_opt(year, month, day).unwrap().num_days_from_ce())
}

fn project(id: u128, client_id: u128, start: Date, end: Date, done: Option<Date>) -> ProjectDto {
    ProjectDto {
        id,
        client_id,
        name: Some(format!("Project {}", id)),
        start_date: start,
        planned_end_date: end,
        actual_end_date: done,
        manager_id: 3,
    }
}

fn state(scroll_offset: i64, quarters: u32, selected: Option<usize>, frame: u64) -> TimelineState {
    TimelineState {
        scroll_offset,
        selected_project: selected,
        zoom: Zoom::from_quarters(quarters).unwrap(),
        animation_frame: frame,
    }
}

// ------------------------------------------------------------- particles

#[test]
fn particle_modes_cycle() {
    assert_eq!(ParticleMode::FloatingAsh.next(), ParticleMode::Dust);
    assert_eq!(ParticleMode::Dust.next(), ParticleMode::Embers);
    assert_eq!(ParticleMode::Embers.next(), ParticleMode::Off);
    assert_eq!(ParticleMode::Off.next(), ParticleMode::FloatingAsh);
    assert_eq!(ParticleMode::FloatingAsh.name(), "Floating Ash");
    assert_eq!(ParticleMode::Dust.name(), "Dust");
    assert_eq!(ParticleMode::Embers.name(), "Embers");
    assert_eq!(ParticleMode::Off.name(), "None");
    assert_eq!(ParticleMode::default(), ParticleMode::FloatingAsh);
}

#[test]
fn particles_spawn_by_mode() {
    let ash = ParticleMode::FloatingAsh;
    assert_eq!(ash.spawn_count(8, 0, 60, 1), 1);
    assert_eq!(ash.spawn_count(8, 0, 60, 2), 2);
    assert_eq!(ash.spawn_count(8, 59, 60, 2), 1);
    assert_eq!(ash.spawn_count(8, 60, 60, 2), 0);
    assert_eq!(ash.spawn_count(9, 0, 60, 2), 0);
    assert_eq!(ParticleMode::Dust.spawn_count(10, 29, 60, 0), 1);
    assert_eq!(ParticleMode::Dust.spawn_count(10, 30, 60, 0), 0);
    assert_eq!(ParticleMode::Dust.spawn_count(11, 0, 60, 0), 0);
    assert_eq!(ParticleMode::Embers.spawn_count(15, 19, 60, 0), 1);
    assert_eq!(ParticleMode::Embers.spawn_count(15, 20, 60, 0), 0);
    assert_eq!(ParticleMode::Off.spawn_count(0, 0, 60, 2), 0);
}

// ----------------------------------------------------------------- theme

#[test]
fn project_colors_repeat() {
    assert_eq!(get_project_color(0), Rgb { r: 0x7A, g: 0xA2, b: 0xF7 });
    assert_eq!(get_project_color(11), Rgb { r: 0x89, g: 0xDD, b: 0xFF });
    assert_eq!(get_project_color(12), get_project_color(0));
    assert_eq!(get_project_color(25), get_project_color(1));
    assert_eq!(get_project_color_dim(0), Rgb { r: 0x3D, g: 0x51, b: 0x7B });
    assert_eq!(Rgb::from_hex(0x8A9A7B), Rgb { r: 0x8A, g: 0x9A, b: 0x7B });
    assert_eq!(Rgb::from_hex(GREEN), Rgb { r: 0x8A, g: 0x9A, b: 0x7B });
}

#[test]
fn status_words_and_colors() {
    assert_eq!(ProjectStatus::Completed.label(), "DONE");
    assert_eq!(ProjectStatus::Overdue.label(), "LATE");
    assert_eq!(ProjectStatus::Pending.label(), "PLANNED");
    assert_eq!(ProjectStatus::Active.label(), "ACTIVE");
    assert_eq!(ProjectStatus::Completed.color(), GREEN);
    assert_eq!(ProjectStatus::Overdue.color(), RED);
    assert_eq!(ProjectStatus::Pending.color(), FG_DIM);
    assert_eq!(ProjectStatus::Active.color(), BLUE);
}

// ----------------------------------------------------------------- radar

#[test]
fn radar_selection_wraps_and_ignores_empty_lists() {
    let mut r = RadarState::default();
    assert_eq!(r.range_days, 90);
    r.select_next(0);
    assert_eq!(r.selected_index, None);
    r.select_next(3);
    assert_eq!(r.selected_index, Some(0));
    r.select_prev(3);
    assert_eq!(r.selected_index, Some(2));
    r.select_next(3);
    assert_eq!(r.selected_index, Some(0));
    r.selected_index = Some(7);
    r.select_next(3);
    assert_eq!(r.selected_index, Some(2));
    r.selected_index = Some(7);
    r.select_prev(3);
    assert_eq!(r.selected_index, Some(0));
    r.select_prev(0);
    assert_eq!(r.selected_index, Some(0));
    let mut none = RadarState::default();
    none.select_prev(5);
    assert_eq!(none.selected_index, Some(0));
    let mut big = RadarState { selected_index: Some(usize::MAX), range_days: 90 };
    big.select_prev(usize::MAX);
    assert_eq!(big.selected_index, Some(usize::MAX - 1));
}

#[test]
fn radar_range_moves_by_weeks() {
    let mut r = RadarState::default();
    r.zoom_in();
    assert_eq!(r.range_days, 83);
    for _ in 0..20 {
        r.zoom_in();
    }
    assert_eq!(r.range_days, 13);
    for _ in 0..100 {
        r.zoom_out();
    }
    assert_eq!(r.range_days, 370);
    r.center_on_today(&[], 80);
    assert_eq!(r.range_days, 90);
}

#[test]
fn radar_jump_selects_by_id() {
    let d = ymd(2024, 1, 1);
    let projects = vec![project(4, 1, d, d, None), project(5, 1, d, d, None), project(5, 2, d, d, None)];
    let mut r = RadarState::default();
    r.jump_to_project(&projects[2], &projects, 80);
    assert_eq!(r.selected_index, Some(1));
    r.jump_to_project(&project(9, 1, d, d, None), &projects, 80);
    assert_eq!(r.selected_index, Some(1));
}

#[test]
fn radar_rings() {
    let today = ymd(2024, 3, 15);
    assert_eq!(RadarState::ring(ymd(1999, 12, 31), today), RadarRing::Unset);
    assert_eq!(RadarState::ring(ymd(2024, 3, 14), today), RadarRing::Overdue);
    assert_eq!(RadarState::ring(today, today), RadarRing::Ahead(0));
    assert_eq!(RadarState::ring(ymd(2024, 4, 14), today), RadarRing::Ahead(30));
}

#[test]
fn client_angle_is_the_weighted_byte_sum() {
    for text in [
        "00000000-0000-0000-0000-000000000000",
        "a1b2c3d4-0000-4000-8000-0123456789ab",
        "ffffffff-ffff-ffff-ffff-ffffffffffff",
        "01000000-0000-0000-0000-000000000002",
    ] {
        let id = uuid::Uuid::parse_str(text).unwrap();
        let mut sum: u32 = 0;
        for (i, b) in id.as_bytes().iter().enumerate() {
            sum = sum.wrapping_add((*b as u32).wrapping_mul(i as u32 + 1));
        }
        assert_eq!(client_hash_to_angle(id.as_u128()) as f64, sum as f64 % 360.0);
    }
    assert_eq!(client_hash_to_angle(0), 0);
    assert_eq!(client_hash_to_angle(2), 32);
    assert_eq!(client_hash_to_angle(u128::MAX), 34680 % 360);
}

// ---------------------------------------------------------------- layout

#[test]
fn centered_rect_centers_and_shrinks() {
    let area = Rect { x: 10, y: 5, width: 100, height: 40 };
    assert_eq!(centered_rect(50, 12, area), Rect { x: 35, y: 19, width: 50, height: 12 });
    assert_eq!(centered_rect(200, 12, area), Rect { x: 10, y: 19, width: 100, height: 12 });
    assert_eq!(centered_rect(0, 0, area), Rect { x: 60, y: 25, width: 0, height: 0 });
    assert_eq!(Rect::new(65530, 0, 10, 1), Rect { x: 65530, y: 0, width: 5, height: 1 });
}

#[test]
fn error_popup_width_is_bounded() {
    let at = |w: u16| error_popup_area(Rect { x: 0, y: 0, width: w, height: 30 }).width;
    assert_eq!(at(200), 60);
    assert_eq!(at(100), 60);
    assert_eq!(at(80), 48);
    assert_eq!(at(50), 30);
    assert_eq!(at(20), 20);
    assert_eq!(at(65535), 60);
    assert_eq!(error_popup_area(Rect { x: 0, y: 0, width: 80, height: 30 }).height, 7);
}

#[test]
fn form_popups() {
    assert_eq!(FormType::CreateClient.popup_size(), (50, 12));
    assert_eq!(FormType::EditProject(1).popup_size(), (55, 22));
    assert_eq!(FormType::EditUser(1).popup_size(), (50, 18));
    assert_eq!(FormType::CreateProject.title(), " New Project ");
    assert_eq!(FormType::EditClient(1).title(), " Edit Client ");
}

#[test]
fn calendar_goes_beside_the_form() {
    let screen = Rect { x: 0, y: 0, width: 120, height: 40 };
    let form = Rect { x: 32, y: 9, width: 55, height: 22 };
    assert_eq!(calendar_area(screen, form), Rect { x: 88, y: 11, width: 24, height: 10 });
    let narrow = Rect { x: 0, y: 0, width: 100, height: 40 };
    assert_eq!(calendar_area(narrow, form).x, 7);
    let tight = Rect { x: 0, y: 0, width: 60, height: 12 };
    let wide_form = Rect { x: 2, y: 0, width: 55, height: 12 };
    assert_eq!(calendar_area(tight, wide_form), Rect { x: 18, y: 2, width: 24, height: 10 });
    let low = Rect { x: 0, y: 0, width: 120, height: 15 };
    assert_eq!(calendar_area(low, form).y, 5);
}

#[test]
fn logs_shown() {
    assert_eq!(visible_log_count(10, 5), 3);
    assert_eq!(visible_log_count(2, 5), 2);
    assert_eq!(visible_log_count(10, 2), 0);
    assert_eq!(visible_log_count(10, 0), 0);
    assert_eq!(LogLevel::Info.prefix(), 'i');
    assert_eq!(LogLevel::Success.prefix(), '+');
    assert_eq!(LogLevel::Warning.prefix(), '!');
    assert_eq!(LogLevel::Error.prefix(), 'x');
}

// --------------------------------------------------------------- details

#[test]
fn client_counts() {
    let d = ymd(2024, 1, 1);
    let projects = vec![
        project(1, 7, d, d, Some(d)),
        project(2, 8, d, d, Some(d)),
        project(3, 7, d, d, None),
        project(4, 7, d, d, Some(d)),
    ];
    assert_eq!(calculate_client_project_counts(&projects, 7), (2, 3));
    assert_eq!(calculate_client_project_counts(&projects, 8), (1, 1));
    assert_eq!(calculate_client_project_counts(&projects, 9), (0, 0));
    assert_eq!(calculate_client_project_counts(&[], 7), (0, 0));
}

#[test]
fn client_progress() {
    assert_eq!(client_progress_cells(0, 0), (0, 5));
    assert_eq!(client_progress_cells(2, 3), (3, 2));
    assert_eq!(client_progress_cells(3, 3), (5, 0));
    assert_eq!(client_progress_cells(1, 7), (0, 5));
    assert_eq!(client_progress_cells(9, 3), (5, 0));
    assert_eq!(client_progress_tone(1, 3, true), ProgressTone::Selected);
    assert_eq!(client_progress_tone(0, 0, false), ProgressTone::Empty);
    assert_eq!(client_progress_tone(3, 3, false), ProgressTone::Complete);
    assert_eq!(client_progress_tone(2, 4, false), ProgressTone::Halfway);
    assert_eq!(client_progress_tone(1, 3, false), ProgressTone::Behind);
    assert_eq!(client_progress_label(2, 13), "2/13");
}

#[test]
fn deadlines() {
    let today = ymd(2024, 3, 15);
    let p = |end: Date, done: Option<Date>| project(1, 1, ymd(2024, 1, 1), end, done);
    assert_eq!(p(ymd(1999, 1, 1), None).deadline(today), Deadline::NotSet);
    assert_eq!(p(ymd(1999, 1, 1), Some(today)).deadline(today), Deadline::NotSet);
    assert_eq!(p(ymd(2024, 3, 1), Some(today)).deadline(today), Deadline::Completed);
    assert_eq!(p(ymd(2024, 3, 1), None).deadline(today), Deadline::Overdue(14));
    assert_eq!(p(ymd(2024, 3, 15), None).deadline(today), Deadline::Left(0));
    assert_eq!(p(ymd(2024, 4, 14), None).deadline(today), Deadline::Left(30));
    assert_eq!(Deadline::NotSet.text(), "Not Set");
    assert_eq!(Deadline::Completed.text(), "Completed");
    assert_eq!(Deadline::Overdue(14).text(), "14 days OVERDUE");
    assert_eq!(Deadline::Left(30).text(), "30 days left");
    let short = p(ymd(2024, 1, 1), None);
    assert_eq!(short.planned_days(), 1);
    assert_eq!(p(ymd(2024, 1, 31), None).planned_days(), 30);
    assert_eq!(short.elapsed_days(ymd(2023, 12, 1)), 0);
    assert_eq!(short.elapsed_days(today), 74);
}

// -------------------------------------------------------------- calendar

#[test]
fn month_names() {
    assert_eq!(name_of_month(1), "January");
    assert_eq!(name_of_month(9), "September");
    assert_eq!(name_of_month(12), "December");
    for m in 1..=12u32 {
        let date = NaiveDate::from_ymd_opt(2024, m, 1).unwrap();
        assert_eq!(abbreviation_of_month(m), date.format("%b").to_string());
        assert_eq!(name_of_month(m), date.format("%B").to_string());
    }
}

#[test]
fn month_page_of_a_date() {
    let page = MonthPage::of_date(ymd(2024, 2, 14), ymd(2024, 2, 20)).unwrap();
    assert_eq!(
        page,
        MonthPage {
            year: 2024,
            month: 2,
            first_weekday: 3,
            days_in_month: 29,
            selected_day: 14,
            today_day: Some(20),
        }
    );
    assert_eq!(page.heading(), "February 2024");
    let december = MonthPage::of_date(ymd(2023, 12, 31), ymd(2024, 12, 1)).unwrap();
    assert_eq!((december.days_in_month, december.today_day, december.first_weekday), (31, None, 4));
    assert!(MonthPage::of_date(Date::new(sweem_tui::dates::MAX_DAY), ymd(2024, 1, 1)).is_none());
    assert_eq!(calendar_date("2024-02-14", ymd(2024, 1, 1)), ymd(2024, 2, 14));
    assert_eq!(calendar_date("x", ymd(2024, 1, 1)), ymd(2024, 1, 1));
}

#[test]
fn month_rows_lay_out_the_weeks() {
    let page = MonthPage {
        year: 2024,
        month: 2,
        first_weekday: 3,
        days_in_month: 29,
        selected_day: 14,
        today_day: Some(20),
    };
    let rows = page.rows();
    // a week is kept while days are left over after it
    assert_eq!(rows.len(), 4);
    assert!(rows.iter().all(|r| r.len() == 7));
    assert_eq!(rows[0][2], CalendarCell::Blank);
    assert_eq!(rows[0][3], CalendarCell::Day(1, DayKind::Plain));
    assert_eq!(rows[0][5], CalendarCell::Day(3, DayKind::Saturday));
    assert_eq!(rows[0][6], CalendarCell::Day(4, DayKind::Sunday));
    assert_eq!(rows[1][0], CalendarCell::Day(5, DayKind::Plain));
    assert_eq!(rows[2][2], CalendarCell::Day(14, DayKind::Selected));
    assert_eq!(rows[3][1], CalendarCell::Day(20, DayKind::Today));
    assert_eq!(rows[3][6], CalendarCell::Day(25, DayKind::Sunday));
    let short = MonthPage { first_weekday: 0, days_in_month: 28, selected_day: 30, ..page };
    assert_eq!(short.rows().len(), 3);
    let long = MonthPage { first_weekday: 6, days_in_month: 31, ..page };
    let rows = long.rows();
    assert_eq!(rows.len(), 5);
    assert_eq!(rows[4][6], CalendarCell::Day(29, DayKind::Sunday));
    let one = MonthPage { first_weekday: 6, days_in_month: 1, ..page };
    assert_eq!(one.rows().len(), 1);
}

// --------------------------------------------------------------- widgets

#[test]
fn widget_frame() {
    let projects = vec![project(1, 1, ymd(2024, 1, 1), ymd(2024, 2, 1), None); 3];
    let s = state(0, 4, None, 0);
    let w = TimelineWidget::new(&projects, &s);
    assert_eq!(w.title_text(), " ✨ Project Timeline ");
    let w = w.title("T");
    assert_eq!(w.title_text(), "T");
    assert_eq!(w.frame(Rect { x: 1, y: 1, width: 29, height: 10 }), None);
    assert_eq!(w.frame(Rect { x: 1, y: 1, width: 30, height: 2 }), None);
    assert_eq!(
        w.frame(Rect { x: 1, y: 1, width: 98, height: 4 }),
        Some(TimelineFrame {
            axis: Rect { x: 27, y: 1, width: 71, height: 2 },
            rows: Rect { x: 1, y: 3, width: 98, height: 2 },
            rows_shown: 2,
        })
    );
    assert_eq!(w.frame(Rect { x: 0, y: 0, width: 98, height: 20 }).unwrap().rows_shown, 3);
    assert!(!w.shows_left_hint());
    assert_eq!(w.calculate_timeline_start(ymd(2024, 5, 5)), ymd(2024, 1, 1));
}

#[test]
fn widget_rows() {
    let projects = vec![
        project(1, 1, ymd(2024, 1, 1), ymd(2024, 1, 20), None),
        project(2, 1, ymd(2024, 1, 5), ymd(2024, 1, 9), Some(ymd(2024, 1, 8))),
    ];
    let s = state(2, 4, Some(1), 9);
    let w = TimelineWidget::new(&projects, &s);
    let start = ymd(2024, 1, 1);
    let today = ymd(2024, 1, 7);
    let first = w.row(0, 98, start, today).unwrap();
    assert!(!first.selected);
    assert_eq!(first.marker, '│');
    assert_eq!(first.status, ProjectStatus::Active);
    assert_eq!(first.color, get_project_color(0));
    assert_eq!(first.name, "Project 1           ");
    assert_eq!(first.geometry, RowGeometry { name_width: 24, bar_offset: 26, bar_width: 71 });
    assert_eq!(
        first.segment,
        Some(BarSegment { visible_start: 0, visible_end: 17, starts_in_view: false, ends_in_view: true })
    );
    assert_eq!(first.today_column, Some(4));
    let second = w.row(1, 98, start, today).unwrap();
    assert!(second.selected);
    assert_eq!(second.marker, '⋆');
    assert_eq!(second.status, ProjectStatus::Completed);
    assert_eq!((second.segment.unwrap().visible_start, second.segment.unwrap().visible_end), (2, 5));
    assert_eq!(second.today_column, Some(4));
    assert!(w.row(2, 98, start, today).is_none());
    assert_eq!(w.today_line(98, start, today), Some(4));
    assert_eq!(w.today_line(20, start, today), None);
    assert!(w.shows_left_hint());
    assert!(w.glow(0));
    assert!(!w.glow(1));
    assert_eq!(w.date_to_column_raw(today, start), 4);
    assert_eq!(w.date_to_column(start, start, 10), None);
}

#[test]
fn widget_axis() {
    let projects: Vec<ProjectDto> = vec![];
    let s = state(0, 4, None, 0);
    let w = TimelineWidget::new(&projects, &s);
    let start = ymd(2024, 1, 29);
    let today = ymd(2024, 2, 3);
    // 29 Jan 2024 is a Monday
    assert_eq!(w.axis_cell(0, 40, start, today).label, AxisLabel::Blank);
    assert_eq!(w.axis_cell(0, 40, start, today).mark, AxisMark::Weekday);
    assert_eq!(w.axis_cell(3, 40, start, today).label, AxisLabel::Month(2));
    assert_eq!(w.axis_cell(3, 5, start, today).label, AxisLabel::Blank);
    assert_eq!(w.axis_cell(5, 40, start, today).mark, AxisMark::Today);
    assert_eq!(w.axis_cell(6, 40, start, today).mark, AxisMark::Weekend);
    assert_eq!(w.axis_cell(9, 40, start, today).label, AxisLabel::Day(7));
    assert_eq!(w.axis_cell(9, 10, start, today).label, AxisLabel::Blank);
    let seventh = ymd(2024, 2, 7);
    assert_eq!(w.axis_cell(0, 40, seventh, today).label, AxisLabel::Blank);
    let edge = Date::new(sweem_tui::dates::MAX_DAY);
    assert_eq!(w.axis_cell(1, 40, edge, today).mark, AxisMark::Weekday);
}

#[test]
fn widget_legend() {
    let items = legend(Rect { x: 3, y: 0, width: 100, height: 10 });
    assert_eq!(items.len(), 4);
    assert_eq!(
        items.iter().map(|i| (i.icon, i.label, i.x)).collect::<Vec<_>>(),
        vec![('●', "Active", 9), ('✓', "Done", 18), ('!', "Overdue", 25), ('│', "Today", 35)]
    );
    assert_eq!(items[2].color, RED);
    let count = |w: u16| legend(Rect { x: 0, y: 0, width: w, height: 10 }).len();
    assert_eq!(count(47), 4);
    assert_eq!(count(46), 3);
    assert_eq!(count(39), 3);
    assert_eq!(count(38), 2);
    assert_eq!(count(29), 2);
    assert_eq!(count(28), 1);
    assert_eq!(count(22), 1);
    assert_eq!(count(21), 0);
    assert_eq!(count(0), 0);
}

#[test]
fn status_line() {
    let s = state(0, 4, Some(1), 17);
    let w = TimelineStatusWidget::new(&s, 3);
    assert_eq!(w.text(), "📊 3 projects  ▸ #2  ⚲ 1.0d/col");
    assert_eq!(w.sparkle(), '⋆');
    let s = state(0, 1, None, 0);
    assert_eq!(TimelineStatusWidget::new(&s, 0).text(), "📊 0 projects  ▸ none  ⚲ 0.2d/col");
    assert_eq!(TimelineStatusWidget::new(&s, 0).sparkle(), '✦');
    for q in [1u32, 2, 4, 8, 16, 32] {
        let zoom = Zoom::from_quarters(q).unwrap();
        assert_eq!(zoom.label(), format!("{:.1}", q as f64 / 4.0));
    }
}

#[test]
fn names_for_the_detail_panel() {
    let clients = vec![
        ClientDto { id: 1, name: None, address: None, projects_total: 0, projects_completed: 0 },
        ClientDto {
            id: 2,
            name: Some("Bolt".to_string()),
            address: None,
            projects_total: 0,
            projects_completed: 0,
        },
    ];
    assert_eq!(client_name_for(&clients, 2), "Bolt");
    assert_eq!(client_name_for(&clients, 1), "Unnamed Client");
    assert_eq!(client_name_for(&clients, 3), "Unknown ID");
    let users = vec![UserDto { id: 5, name: Some("Ann".to_string()), login: None, role: Role::Admin }];
    assert_eq!(manager_name_for(&users, 5), "Ann");
    assert_eq!(manager_name_for(&[], 5), "Unknown ID");
    assert_eq!(masked("secret"), "******");
    assert_eq!(masked("é"), "**");
    assert_eq!(masked(""), "");
}

#[test]
fn axis_cells_for_known_days() {
    let cell = AxisCell::for_day(1, 3, 4, false, 10, 40);
    assert_eq!((cell.label, cell.mark), (AxisLabel::Month(3), AxisMark::Weekday));
    let cell = AxisCell::for_day(1, 3, 5, true, 38, 40);
    assert_eq!((cell.label, cell.mark), (AxisLabel::Blank, AxisMark::Today));
    let cell = AxisCell::for_day(14, 3, 6, false, 38, 40);
    assert_eq!((cell.label, cell.mark), (AxisLabel::Day(14), AxisMark::Weekend));
    assert_eq!(AxisCell::for_day(14, 3, 0, false, 0, 40).label, AxisLabel::Blank);
    assert_eq!(AxisCell::for_day(14, 3, 0, false, 39, 40).label, AxisLabel::Blank);
    assert_eq!(AxisCell::for_day(15, 3, 0, false, 5, 40).label, AxisLabel::Blank);
}

#[test]
fn months_follow_each_other() {
    assert_eq!(month_after(2024, 1), (2024, 2));
    assert_eq!(month_after(2024, 11), (2024, 12));
    assert_eq!(month_after(2024, 12), (2025, 1));
    assert_eq!(day_if_in_month((2024, 2, 20), 2024, 2), Some(20));
    assert_eq!(day_if_in_month((2024, 2, 20), 2024, 3), None);
    assert_eq!(day_if_in_month((2023, 2, 20), 2024, 2), None);
}
