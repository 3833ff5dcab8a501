use game_rules::{
    cursor_marks, initialized, is_engine_system, plan_layout, respond_to_keys, visibility_change,
    Advance, OverlaySpan, OverlayVisibility, SteppedSystem, SteppingKeys, SystemRef,
};

fn keys(dump: bool, toggle: bool, continue_frame: bool, step: bool) -> SteppingKeys {
    SteppingKeys { dump, toggle, continue_frame, step }
}

#[test]
fn engine_systems_are_named_by_prefix() {
    assert!(is_engine_system("bevy_time::time_system"));
    assert!(is_engine_system("bevy"));
    assert!(!is_engine_system("breakout::move_paddle"));
    assert!(!is_engine_system("bev"));
    assert!(!is_engine_system("Bevy_app"));
    assert!(!is_engine_system(""));
}

#[test]
fn layout_lists_game_systems_with_cursor_spans() {
    let schedules = vec![
        vec![
            (0, String::from("bevy_input::keyboard")),
            (1, String::from("breakout::apply_velocity")),
            (2, String::from("breakout::move_paddle")),
        ],
        vec![(5, String::from("breakout::update_scoreboard"))],
    ];
    let layout = plan_layout(&schedules);
    assert_eq!(
        layout.spans,
        vec![
            OverlaySpan::ScheduleLabel(0),
            OverlaySpan::Cursor,
            OverlaySpan::SystemName(0, 1),
            OverlaySpan::Cursor,
            OverlaySpan::SystemName(0, 2),
            OverlaySpan::ScheduleLabel(1),
            OverlaySpan::Cursor,
            OverlaySpan::SystemName(1, 0),
        ]
    );
    assert_eq!(layout.always_run, vec![SystemRef { schedule: 0, node: 0 }]);
    // Each of the four systems is either listed or always runs.
    assert_eq!(layout.stepped.len() + layout.always_run.len(), 4);
    assert_eq!(
        layout.stepped,
        vec![
            SteppedSystem { schedule: 0, node: 1, text_index: 2 },
            SteppedSystem { schedule: 0, node: 2, text_index: 4 },
            SteppedSystem { schedule: 1, node: 5, text_index: 7 },
        ]
    );
}

#[test]
fn layout_of_no_schedules_is_empty() {
    let layout = plan_layout(&Vec::new());
    assert!(layout.spans.is_empty());
    assert!(layout.stepped.is_empty());
    assert!(layout.always_run.is_empty());
    assert!(!initialized(&layout.stepped));
}

#[test]
fn schedule_of_engine_systems_shows_only_its_label() {
    let schedules = vec![vec![(3, String::from("bevy_time::fixed")), (4, String::from("bevy_app::main"))]];
    let layout = plan_layout(&schedules);
    assert_eq!(layout.spans, vec![OverlaySpan::ScheduleLabel(0)]);
    assert!(layout.stepped.is_empty());
    assert_eq!(
        layout.always_run,
        vec![SystemRef { schedule: 0, node: 3 }, SystemRef { schedule: 0, node: 4 }]
    );
}

#[test]
fn overlay_is_initialized_once_it_lists_a_system() {
    let systems = vec![SteppedSystem { schedule: 0, node: 3, text_index: 2 }];
    assert!(initialized(&systems));
}

#[test]
fn cursor_marks_only_its_system() {
    let systems = vec![
        SteppedSystem { schedule: 0, node: 1, text_index: 2 },
        SteppedSystem { schedule: 1, node: 1, text_index: 5 },
        SteppedSystem { schedule: 1, node: 2, text_index: 7 },
    ];
    assert_eq!(cursor_marks(&systems, SystemRef { schedule: 1, node: 1 }), vec![false, true, false]);
    assert_eq!(cursor_marks(&systems, SystemRef { schedule: 2, node: 1 }), vec![false, false, false]);
}

#[test]
fn overlay_shows_only_while_stepping() {
    let (hidden, inherited, visible) =
        (OverlayVisibility::Hidden, OverlayVisibility::Inherited, OverlayVisibility::Visible);
    assert_eq!(visibility_change(hidden, true), Some(inherited));
    assert_eq!(visibility_change(hidden, false), None);
    assert_eq!(visibility_change(inherited, true), None);
    assert_eq!(visibility_change(visible, true), None);
    assert_eq!(visibility_change(inherited, false), Some(hidden));
    assert_eq!(visibility_change(visible, false), Some(hidden));
}

#[test]
fn toggle_takes_effect_next_frame() {
    let r = respond_to_keys(keys(false, true, true, false), false);
    assert_eq!(r.set_enabled, Some(true));
    assert_eq!(r.advance, None);
    assert!(!r.log_state);
    let r = respond_to_keys(keys(false, true, false, true), true);
    assert_eq!(r.set_enabled, Some(false));
    assert_eq!(r.advance, Some(Advance::StepFrame));
}

#[test]
fn disabled_stepping_ignores_advance_keys() {
    let r = respond_to_keys(keys(true, false, true, true), false);
    assert!(r.log_state);
    assert_eq!(r.set_enabled, None);
    assert_eq!(r.advance, None);
}

#[test]
fn continue_wins_over_step() {
    assert_eq!(respond_to_keys(keys(false, false, true, true), true).advance, Some(Advance::ContinueFrame));
    assert_eq!(respond_to_keys(keys(false, false, false, true), true).advance, Some(Advance::StepFrame));
    assert_eq!(respond_to_keys(keys(false, false, false, false), true).advance, None);
}
