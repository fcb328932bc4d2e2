use topdown::cursor::{
    cursor_position, look_target, window_to_world, CameraFrame, CursorPosition, Pointer, Window,
};
use topdown::vector::{Vec2, Vec3};

/// A camera at `origin` that looks straight down, with the world's `z`
/// upward on the screen.
fn looking_down(origin: Vec3) -> CameraFrame {
    CameraFrame {
        origin,
        right: Vec3 { x: -1_000_000, y: 0, z: 0 },
        up: Vec3 { x: 0, y: 0, z: 1_000_000 },
        forward: Vec3 { x: 0, y: -1_000_000, z: 0 },
    }
}

/// A camera at `origin` that looks level along the negative `z`.
fn looking_level(origin: Vec3) -> CameraFrame {
    CameraFrame {
        origin,
        right: Vec3 { x: 1_000_000, y: 0, z: 0 },
        up: Vec3 { x: 0, y: 1_000_000, z: 0 },
        forward: Vec3 { x: 0, y: 0, z: -1_000_000 },
    }
}

fn window(cursor: Option<Pointer>) -> Window {
    Window { width: 800, height: 600, cursor }
}

fn above_origin() -> Vec3 {
    Vec3 { x: 0, y: 30_000_000, z: 0 }
}

#[test]
fn centre_of_the_window_is_straight_ahead() {
    let camera = looking_down(above_origin());
    let hit = window_to_world(&window(None), &camera, &Pointer { x: 400, y: 300 });
    assert_eq!(hit, Some(Vec2 { x: 0, y: 0 }));
}

#[test]
fn centre_under_a_camera_that_stands_elsewhere() {
    let camera = looking_down(Vec3 { x: 7_000_000, y: 12_000_000, z: -3_000_000 });
    let hit = window_to_world(&window(None), &camera, &Pointer { x: 400, y: 300 });
    assert_eq!(hit, Some(Vec2 { x: 7_000_000, y: -3_000_000 }));
}

#[test]
fn edges_of_the_window_are_one_height_away() {
    let camera = looking_down(above_origin());
    let right = window_to_world(&window(None), &camera, &Pointer { x: 800, y: 300 });
    assert_eq!(right, Some(Vec2 { x: -30_000_000, y: 0 }));
    let left = window_to_world(&window(None), &camera, &Pointer { x: 0, y: 300 });
    assert_eq!(left, Some(Vec2 { x: 30_000_000, y: 0 }));
    let top = window_to_world(&window(None), &camera, &Pointer { x: 400, y: 0 });
    assert_eq!(top, Some(Vec2 { x: 0, y: 30_000_000 }));
    let bottom = window_to_world(&window(None), &camera, &Pointer { x: 400, y: 600 });
    assert_eq!(bottom, Some(Vec2 { x: 0, y: -30_000_000 }));
}

#[test]
fn a_pixel_between_centre_and_corner() {
    let camera = looking_down(above_origin());
    let hit = window_to_world(&window(None), &camera, &Pointer { x: 600, y: 150 });
    assert_eq!(hit, Some(Vec2 { x: -15_000_000, y: 15_000_000 }));
}

#[test]
fn ground_point_is_rounded_toward_the_camera() {
    let camera = looking_down(Vec3 { x: 0, y: 7, z: 0 });
    // half the way to the right edge: 3.5 stored units from the camera
    let hit = window_to_world(&window(None), &camera, &Pointer { x: 600, y: 300 });
    assert_eq!(hit, Some(Vec2 { x: -3, y: 0 }));
    let other = window_to_world(&window(None), &camera, &Pointer { x: 200, y: 450 });
    assert_eq!(other, Some(Vec2 { x: 3, y: -3 }));
}

#[test]
fn tilted_camera_sees_the_ground_ahead() {
    // forward and down in equal parts
    let camera = CameraFrame {
        origin: Vec3 { x: 0, y: 10_000_000, z: 0 },
        right: Vec3 { x: 1_000_000, y: 0, z: 0 },
        up: Vec3 { x: 0, y: 707_107, z: -707_107 },
        forward: Vec3 { x: 0, y: -707_107, z: -707_107 },
    };
    let hit = window_to_world(&window(None), &camera, &Pointer { x: 400, y: 300 });
    assert_eq!(hit, Some(Vec2 { x: 0, y: -10_000_000 }));
}

#[test]
fn level_ray_meets_no_ground() {
    let camera = looking_level(above_origin());
    assert_eq!(window_to_world(&window(None), &camera, &Pointer { x: 400, y: 300 }), None);
    assert_eq!(window_to_world(&window(None), &camera, &Pointer { x: 0, y: 300 }), None);
}

#[test]
fn ray_that_points_away_from_the_ground_meets_it_behind_the_camera() {
    let camera = looking_level(above_origin());
    // the top edge: the ray rises by one for each one forward
    let hit = window_to_world(&window(None), &camera, &Pointer { x: 400, y: 0 });
    assert_eq!(hit, Some(Vec2 { x: 0, y: 30_000_000 }));
    let down = window_to_world(&window(None), &camera, &Pointer { x: 400, y: 600 });
    assert_eq!(down, Some(Vec2 { x: 0, y: -30_000_000 }));
}

#[test]
fn window_without_area_has_no_ground_point() {
    let camera = looking_down(above_origin());
    let flat = Window { width: 800, height: 0, cursor: None };
    let thin = Window { width: 0, height: 600, cursor: None };
    let none = Window { width: 0, height: 0, cursor: None };
    assert_eq!(window_to_world(&flat, &camera, &Pointer { x: 400, y: 0 }), None);
    assert_eq!(window_to_world(&thin, &camera, &Pointer { x: 0, y: 300 }), None);
    assert_eq!(window_to_world(&none, &camera, &Pointer { x: 0, y: 0 }), None);
}

#[test]
fn ground_point_that_cannot_be_stored() {
    let camera = looking_down(Vec3 { x: i64::MAX, y: 30_000_000, z: 0 });
    assert_eq!(window_to_world(&window(None), &camera, &Pointer { x: 0, y: 300 }), None);
    assert_eq!(
        window_to_world(&window(None), &camera, &Pointer { x: 400, y: 300 }),
        Some(Vec2 { x: i64::MAX, y: 0 })
    );
    assert_eq!(
        window_to_world(&window(None), &camera, &Pointer { x: 800, y: 300 }),
        Some(Vec2 { x: i64::MAX - 30_000_000, y: 0 })
    );
    let low = looking_down(Vec3 { x: 0, y: 30_000_000, z: i64::MIN });
    assert_eq!(window_to_world(&window(None), &low, &Pointer { x: 400, y: 600 }), None);
}

#[test]
fn largest_window_and_highest_camera() {
    let camera = looking_down(Vec3 { x: 0, y: i64::MAX, z: 0 });
    let big = Window { width: u16::MAX, height: u16::MAX, cursor: None };
    // the far corner lies one height away along both axes, and a whole pixel
    // more than the window is wide
    let hit = window_to_world(&big, &camera, &Pointer { x: u16::MAX, y: u16::MAX });
    assert_eq!(hit, Some(Vec2 { x: -i64::MAX, y: -i64::MAX }));
    let origin = window_to_world(&big, &camera, &Pointer { x: 0, y: 0 });
    assert_eq!(origin, Some(Vec2 { x: i64::MAX, y: i64::MAX }));
}

#[test]
fn frames_are_checked() {
    assert!(looking_down(above_origin()).is_well_formed());
    assert!(looking_level(above_origin()).is_well_formed());
    let mut long = looking_down(above_origin());
    long.up.z = 1_000_001;
    assert!(!long.is_well_formed());
    long.up.z = -1_000_001;
    assert!(!long.is_well_formed());
    long.up.z = -1_000_000;
    assert!(long.is_well_formed());
    long.forward.x = i64::MAX;
    assert!(!long.is_well_formed());
    long.forward.x = 0;
    long.right.y = i64::MIN;
    assert!(!long.is_well_formed());
}

#[test]
fn cursor_follows_the_pointer() {
    let camera = looking_down(above_origin());
    let mut cursor = CursorPosition::origin();
    cursor_position(&mut cursor, &window(Some(Pointer { x: 600, y: 150 })), &camera);
    assert_eq!(cursor.position, Vec2 { x: -15_000_000, y: 15_000_000 });
    cursor_position(&mut cursor, &window(Some(Pointer { x: 400, y: 300 })), &camera);
    assert_eq!(cursor.position, Vec2 { x: 0, y: 0 });
}

#[test]
fn cursor_stays_while_the_pointer_is_outside_the_window() {
    let camera = looking_down(above_origin());
    let mut cursor = CursorPosition { position: Vec2 { x: 1_234_567, y: -7_654_321 } };
    cursor_position(&mut cursor, &window(None), &camera);
    assert_eq!(cursor.position, Vec2 { x: 1_234_567, y: -7_654_321 });
}

#[test]
fn cursor_stays_when_the_ray_runs_level() {
    let camera = looking_level(above_origin());
    let mut cursor = CursorPosition { position: Vec2 { x: 1_234_567, y: -7_654_321 } };
    cursor_position(&mut cursor, &window(Some(Pointer { x: 123, y: 300 })), &camera);
    assert_eq!(cursor.position, Vec2 { x: 1_234_567, y: -7_654_321 });
}

#[test]
fn cursor_stays_under_a_camera_that_looks_down_when_the_pointer_cancels_its_fall() {
    // a frame whose upward direction is the world's: at the top edge of the
    // window the upward part of the ray cancels the forward part
    let camera = CameraFrame {
        origin: above_origin(),
        right: Vec3 { x: 1_000_000, y: 0, z: 0 },
        up: Vec3 { x: 0, y: 1_000_000, z: 0 },
        forward: Vec3 { x: 0, y: -1_000_000, z: 0 },
    };
    let mut cursor = CursorPosition { position: Vec2 { x: 4_000_000, y: 2_000_000 } };
    cursor_position(&mut cursor, &window(Some(Pointer { x: 250, y: 0 })), &camera);
    assert_eq!(cursor.position, Vec2 { x: 4_000_000, y: 2_000_000 });
    // one pixel lower the ray falls again
    cursor_position(&mut cursor, &window(Some(Pointer { x: 400, y: 1 })), &camera);
    assert_eq!(cursor.position, Vec2 { x: 0, y: 0 });
}

#[test]
fn cursor_stays_when_the_point_cannot_be_stored() {
    let camera = looking_down(Vec3 { x: i64::MAX, y: 30_000_000, z: 0 });
    let mut cursor = CursorPosition { position: Vec2 { x: 5, y: 6 } };
    cursor_position(&mut cursor, &window(Some(Pointer { x: 0, y: 300 })), &camera);
    assert_eq!(cursor.position, Vec2 { x: 5, y: 6 });
}

#[test]
fn cursor_starts_on_the_origin() {
    assert_eq!(CursorPosition::origin().position, Vec2 { x: 0, y: 0 });
}

#[test]
fn look_target_is_the_cursor_on_the_ground() {
    let cursor = CursorPosition { position: Vec2 { x: 3_000_000, y: -4_000_000 } };
    assert_eq!(look_target(&cursor), Vec3 { x: 3_000_000, y: 0, z: -4_000_000 });
    assert_eq!(look_target(&CursorPosition::origin()), Vec3 { x: 0, y: 0, z: 0 });
}
