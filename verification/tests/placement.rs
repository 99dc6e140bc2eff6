use n_top::geometry::{
    is_visible_on, is_window_visible_on_any_monitor, keep_moved_position, restored_position,
    MonitorArea, Position, Size,
};

fn monitor(x: i32, y: i32, width: u32, height: u32) -> MonitorArea {
    MonitorArea { position: Position { x, y }, size: Size { width, height } }
}

#[test]
fn window_inside_a_monitor_is_visible() {
    let m = monitor(0, 0, 1920, 1080);
    assert!(is_visible_on(&m, Position { x: 100, y: 100 }, Size { width: 300, height: 200 }));
}

#[test]
fn visible_area_thresholds_are_sixty_by_forty() {
    let m = monitor(0, 0, 1920, 1080);
    let size = Size { width: 300, height: 200 };
    assert!(is_visible_on(&m, Position { x: 1860, y: 100 }, size));
    assert!(!is_visible_on(&m, Position { x: 1861, y: 100 }, size));
    assert!(is_visible_on(&m, Position { x: 100, y: 1040 }, size));
    assert!(!is_visible_on(&m, Position { x: 100, y: 1041 }, size));
    assert!(is_visible_on(&m, Position { x: -240, y: -160 }, size));
    assert!(!is_visible_on(&m, Position { x: -241, y: 0 }, size));
}

#[test]
fn small_window_is_never_visible() {
    let m = monitor(0, 0, 1920, 1080);
    assert!(!is_visible_on(&m, Position { x: 10, y: 10 }, Size { width: 59, height: 500 }));
    assert!(!is_visible_on(&m, Position { x: 10, y: 10 }, Size { width: 0, height: 0 }));
}

#[test]
fn unknown_or_no_monitors_count_as_visible() {
    let pos = Position { x: 100000, y: 100000 };
    let size = Size { width: 10, height: 10 };
    assert!(is_window_visible_on_any_monitor(None, pos, size));
    assert!(is_window_visible_on_any_monitor(Some(&Vec::new()), pos, size));
}

#[test]
fn second_monitor_counts() {
    let ms = vec![monitor(0, 0, 1920, 1080), monitor(-2560, 0, 2560, 1440)];
    let size = Size { width: 400, height: 300 };
    assert!(is_window_visible_on_any_monitor(Some(&ms), Position { x: -1000, y: 500 }, size));
    assert!(!is_window_visible_on_any_monitor(Some(&ms), Position { x: -1000, y: 1500 }, size));
    assert!(!is_window_visible_on_any_monitor(Some(&ms), Position { x: 5000, y: 100 }, size));
}

#[test]
fn extreme_coordinates_do_not_overflow() {
    let m = monitor(i32::MAX, i32::MAX, u32::MAX, u32::MAX);
    let size = Size { width: u32::MAX, height: u32::MAX };
    assert!(is_visible_on(&m, Position { x: i32::MAX, y: i32::MAX }, size));
    assert!(!is_visible_on(&m, Position { x: i32::MIN, y: i32::MIN }, Size { width: 100, height: 100 }));
}

#[test]
fn restore_keeps_a_visible_place() {
    let ms = vec![monitor(0, 0, 1920, 1080)];
    let size = Size { width: 300, height: 200 };
    assert_eq!(
        restored_position(Position { x: 500, y: 400 }, size, Some(&ms)),
        Position { x: 500, y: 400 }
    );
}

#[test]
fn restore_moves_a_lost_window_to_the_corner() {
    let ms = vec![monitor(0, 0, 1920, 1080)];
    let size = Size { width: 300, height: 200 };
    assert_eq!(
        restored_position(Position { x: 3000, y: 400 }, size, Some(&ms)),
        Position { x: 100, y: 100 }
    );
    assert_eq!(
        restored_position(Position { x: 500, y: 400 }, Size { width: 0, height: 0 }, Some(&ms)),
        Position { x: 100, y: 100 }
    );
    assert_eq!(
        restored_position(Position { x: 3000, y: 400 }, size, None),
        Position { x: 3000, y: 400 }
    );
}

#[test]
fn moves_off_every_screen_are_dropped() {
    let ms = vec![monitor(0, 0, 1920, 1080)];
    let size = Some(Size { width: 300, height: 200 });
    assert!(keep_moved_position(size, Some(&ms), Position { x: 10, y: 10 }));
    assert!(!keep_moved_position(size, Some(&ms), Position { x: -32000, y: -32000 }));
    assert!(keep_moved_position(None, Some(&ms), Position { x: -32000, y: -32000 }));
    assert!(keep_moved_position(size, None, Position { x: -32000, y: -32000 }));
}
