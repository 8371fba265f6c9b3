use region_tracker::geometry::Rect;
use region_tracker::selection::{on_mouse, MouseEvent, SelectionStatus};
use region_tracker::tracker::{FramePlan, Tracker, TrackingMode};

fn ready(r: Rect) -> SelectionStatus {
    SelectionStatus { selection: r, status: true }
}

#[test]
fn new_tracker_is_idle() {
    let t = Tracker::new();
    assert_eq!(t.mode, TrackingMode::Idle);
    assert!(!t.is_tracking());
    assert_eq!(t.window, Rect { x: 0, y: 0, width: 0, height: 0 });
}

#[test]
fn idle_frame_without_selection_plans_nothing() {
    let mut t = Tracker::new();
    let mut s = SelectionStatus::new();
    let plan = t.begin_frame(&mut s);
    assert_eq!(plan, FramePlan { initialize: None, search: None });
    assert_eq!(t, Tracker::new());
    assert_eq!(s, SelectionStatus::new());
    assert_eq!(t.end_frame(Rect { x: 1, y: 2, width: 3, height: 4 }), None);
    assert_eq!(t, Tracker::new());
}

#[test]
fn selection_commit_starts_tracking() {
    let mut t = Tracker::new();
    let mut s = SelectionStatus::new();
    on_mouse(MouseEvent::ButtonDown, 10, 10, &mut s);
    on_mouse(MouseEvent::ButtonUp, 60, 80, &mut s);
    let plan = t.begin_frame(&mut s);
    let region = Rect { x: 10, y: 10, width: 50, height: 70 };
    assert_eq!(plan, FramePlan { initialize: Some(region), search: Some(region) });
    assert_eq!(t.mode, TrackingMode::Tracking);
    assert!(t.is_tracking());
    assert_eq!(t.window, region);
    assert_eq!(t.histogram_region, region);
    assert!(!s.status);
    assert_eq!(s.selection, region);
}

#[test]
fn histogram_is_computed_once_per_commit() {
    let mut t = Tracker::new();
    let mut s = SelectionStatus::new();
    on_mouse(MouseEvent::ButtonDown, 10, 10, &mut s);
    on_mouse(MouseEvent::ButtonUp, 60, 80, &mut s);
    let region = Rect { x: 10, y: 10, width: 50, height: 70 };
    let mut computed: Vec<Rect> = Vec::new();
    for _ in 0..5 {
        let plan = t.begin_frame(&mut s);
        if let Some(r) = plan.initialize {
            computed.push(r);
        }
        let seed = plan.search.unwrap();
        t.end_frame(seed);
    }
    assert_eq!(computed, vec![region]);
    assert_eq!(t.window, region);
    assert_eq!(t.histogram_region, region);
}

#[test]
fn tracked_frame_reports_the_centroid() {
    let mut t = Tracker::new();
    let mut s = ready(Rect { x: 10, y: 10, width: 50, height: 70 });
    t.begin_frame(&mut s);
    let bounding = Rect { x: 20, y: 30, width: 40, height: 20 };
    let line = t.end_frame(bounding);
    assert_eq!(line, Some(b"40 40 \n".to_vec()));
    assert_eq!(t.window, bounding);
    assert_eq!(t.histogram_region, Rect { x: 10, y: 10, width: 50, height: 70 });
    assert_eq!(t.mode, TrackingMode::Tracking);
}

#[test]
fn search_result_seeds_the_next_frame() {
    let mut t = Tracker::new();
    let mut s = ready(Rect { x: 10, y: 10, width: 50, height: 70 });
    t.begin_frame(&mut s);
    let bounding = Rect { x: 20, y: 30, width: 41, height: 21 };
    assert_eq!(t.end_frame(bounding), Some(b"40 40 \n".to_vec()));
    let plan = t.begin_frame(&mut s);
    assert_eq!(plan, FramePlan { initialize: None, search: Some(bounding) });
    assert_eq!(t.end_frame(Rect { x: -8, y: 0, width: 3, height: 1 }), Some(b"-7 0 \n".to_vec()));
    assert_eq!(t.window, Rect { x: -8, y: 0, width: 3, height: 1 });
}

#[test]
fn degenerate_selection_commits_nothing() {
    let mut t = Tracker::new();
    let mut s = SelectionStatus::new();
    on_mouse(MouseEvent::ButtonDown, 5, 5, &mut s);
    on_mouse(MouseEvent::ButtonUp, 5, 5, &mut s);
    let plan = t.begin_frame(&mut s);
    assert_eq!(plan, FramePlan { initialize: None, search: None });
    assert_eq!(t.mode, TrackingMode::Idle);
    assert_eq!(t.end_frame(Rect { x: 20, y: 30, width: 40, height: 20 }), None);
    assert_eq!(t, Tracker::new());
}

#[test]
fn degenerate_selection_leaves_the_window_while_tracking() {
    let mut t = Tracker::new();
    let mut s = ready(Rect { x: 10, y: 10, width: 50, height: 70 });
    t.begin_frame(&mut s);
    let before = t;
    on_mouse(MouseEvent::ButtonDown, 90, 90, &mut s);
    on_mouse(MouseEvent::ButtonUp, 80, 95, &mut s);
    let plan = t.begin_frame(&mut s);
    assert_eq!(plan, FramePlan { initialize: None, search: Some(before.window) });
    assert_eq!(t, before);
}

#[test]
fn tracking_never_returns_to_idle() {
    let mut t = Tracker::new();
    let mut s = ready(Rect { x: 1, y: 1, width: 2, height: 2 });
    t.begin_frame(&mut s);
    let results = [
        Rect { x: 0, y: 0, width: 0, height: 0 },
        Rect { x: -10, y: -10, width: -1, height: -1 },
        Rect { x: 3, y: 4, width: 5, height: 6 },
    ];
    for r in results {
        on_mouse(MouseEvent::ButtonDown, 9, 9, &mut s);
        on_mouse(MouseEvent::ButtonUp, 3, 3, &mut s);
        let plan = t.begin_frame(&mut s);
        assert!(plan.search.is_some());
        assert!(plan.initialize.is_none());
        assert!(t.end_frame(r).is_some());
        assert_eq!(t.mode, TrackingMode::Tracking);
        assert_eq!(t.histogram_region, Rect { x: 1, y: 1, width: 2, height: 2 });
        assert_eq!(t.window, r);
    }
}

#[test]
fn frames_without_movement_keep_the_tracker_as_it_is() {
    let mut t = Tracker::new();
    let mut s = ready(Rect { x: 10, y: 10, width: 50, height: 70 });
    t.begin_frame(&mut s);
    let before = t;
    for _ in 0..3 {
        let plan = t.begin_frame(&mut s);
        let line = t.end_frame(plan.search.unwrap());
        assert_eq!(line, Some(b"35 45 \n".to_vec()));
        assert_eq!(t, before);
    }
}

#[test]
fn second_commit_reseeds_from_the_new_region() {
    let mut t = Tracker::new();
    let mut s = ready(Rect { x: 10, y: 10, width: 50, height: 70 });
    t.begin_frame(&mut s);
    t.end_frame(Rect { x: 20, y: 30, width: 40, height: 20 });
    on_mouse(MouseEvent::ButtonDown, 100, 110, &mut s);
    on_mouse(MouseEvent::ButtonUp, 130, 150, &mut s);
    let plan = t.begin_frame(&mut s);
    let region = Rect { x: 100, y: 110, width: 30, height: 40 };
    assert_eq!(plan, FramePlan { initialize: Some(region), search: Some(region) });
    assert_eq!(t, Tracker { mode: TrackingMode::Tracking, window: region, histogram_region: region });

    let mut fresh = Tracker::new();
    let mut again = ready(region);
    fresh.begin_frame(&mut again);
    assert_eq!(fresh, t);
}

#[test]
fn ready_mark_on_a_rectangle_without_extent_is_dropped() {
    let mut t = Tracker::new();
    let mut s = SelectionStatus::new();
    on_mouse(MouseEvent::ButtonDown, 10, 10, &mut s);
    on_mouse(MouseEvent::ButtonUp, 60, 80, &mut s);
    on_mouse(MouseEvent::ButtonDown, 5, 5, &mut s);
    on_mouse(MouseEvent::ButtonUp, 5, 5, &mut s);
    assert!(s.status);
    let plan = t.begin_frame(&mut s);
    assert_eq!(plan, FramePlan { initialize: None, search: None });
    assert_eq!(t.mode, TrackingMode::Idle);
    assert!(!s.status);
    assert_eq!(s.selection, Rect { x: 5, y: 5, width: 0, height: 0 });
}

#[test]
fn press_between_release_and_frame_moves_the_committed_origin() {
    let mut t = Tracker::new();
    let mut s = SelectionStatus::new();
    on_mouse(MouseEvent::ButtonDown, 10, 10, &mut s);
    on_mouse(MouseEvent::ButtonUp, 60, 80, &mut s);
    on_mouse(MouseEvent::ButtonDown, 200, 300, &mut s);
    let plan = t.begin_frame(&mut s);
    let region = Rect { x: 200, y: 300, width: 50, height: 70 };
    assert_eq!(plan.initialize, Some(region));
    assert_eq!(t.window, region);
}
