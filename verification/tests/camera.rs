use modelers::global::camera::{
    Camera, CameraCommand, DELTA_ANGLE, FULL_TURN, MAX_ELEVATION_ANGLE, MIN_ELEVATION_ANGLE,
};

#[test]
fn fresh_camera_looks_level_straight_ahead() {
    let camera = Camera::default();
    assert_eq!(camera.yaw_angle(), 0);
    assert_eq!(camera.elevation_angle(), 0);
}

#[test]
fn update_without_keys_changes_nothing() {
    let mut camera = Camera::default();
    let step = camera.update();
    assert_eq!(camera.yaw_angle(), 0);
    assert_eq!(camera.elevation_angle(), 0);
    assert_eq!(step.forward, 0);
    assert_eq!(step.right, 0);
    assert_eq!(step.up, 0);
}

#[test]
fn looking_up_tilts_one_step() {
    let mut camera = Camera::default();
    camera.look_up(true);
    camera.update();
    assert_eq!(camera.elevation_angle(), DELTA_ANGLE);
    camera.look_up(false);
    camera.update();
    assert_eq!(camera.elevation_angle(), DELTA_ANGLE);
}

#[test]
fn elevation_clamps_just_short_of_straight_up() {
    let mut camera = Camera::default();
    camera.look_up(true);
    for _ in 0..49 {
        camera.update();
    }
    assert_eq!(camera.elevation_angle(), 49 * DELTA_ANGLE);
    camera.update();
    assert_eq!(camera.elevation_angle(), MAX_ELEVATION_ANGLE);
    camera.update();
    assert_eq!(camera.elevation_angle(), MAX_ELEVATION_ANGLE);
}

#[test]
fn elevation_clamps_just_short_of_straight_down() {
    let mut camera = Camera::default();
    camera.look_down(true);
    for _ in 0..60 {
        camera.update();
    }
    assert_eq!(camera.elevation_angle(), MIN_ELEVATION_ANGLE);
}

#[test]
fn turning_right_wraps_below_zero() {
    let mut camera = Camera::default();
    camera.turn_right(true);
    camera.update();
    assert_eq!(camera.yaw_angle(), FULL_TURN - DELTA_ANGLE);
}

#[test]
fn a_full_turn_comes_back_around() {
    let mut camera = Camera::default();
    camera.turn_left(true);
    for _ in 0..200 {
        camera.update();
    }
    assert_eq!(camera.yaw_angle(), 0);
}

#[test]
fn opposed_keys_cancel() {
    let mut camera = Camera::default();
    camera.turn_left(true);
    camera.turn_right(true);
    camera.look_up(true);
    camera.look_down(true);
    camera.move_forward(true);
    camera.move_backward(true);
    let step = camera.update();
    assert_eq!(camera.yaw_angle(), 0);
    assert_eq!(camera.elevation_angle(), 0);
    assert_eq!(step.forward, 0);
}

#[test]
fn update_reports_movement_signs() {
    let mut camera = Camera::default();
    camera.move_forward(true);
    camera.move_left(true);
    camera.move_up(true);
    let step = camera.update();
    assert_eq!(step.forward, 1);
    assert_eq!(step.right, -1);
    assert_eq!(step.up, 1);

    let mut camera = Camera::default();
    camera.move_backward(true);
    camera.move_right(true);
    camera.move_down(true);
    let step = camera.update();
    assert_eq!(step.forward, -1);
    assert_eq!(step.right, 1);
    assert_eq!(step.up, -1);
}

#[test]
fn commands_drive_the_same_flags_as_the_setters() {
    let mut by_command = Camera::default();
    by_command.apply_command(CameraCommand::TurnLeft, true);
    by_command.apply_command(CameraCommand::LookDown, true);
    by_command.update();

    let mut by_setter = Camera::default();
    by_setter.turn_left(true);
    by_setter.look_down(true);
    by_setter.update();

    assert_eq!(by_command.yaw_angle(), by_setter.yaw_angle());
    assert_eq!(by_command.elevation_angle(), by_setter.elevation_angle());
    assert_eq!(by_command.yaw_angle(), DELTA_ANGLE);
    assert_eq!(by_command.elevation_angle(), -DELTA_ANGLE);
}

#[test]
fn releasing_a_command_stops_the_motion() {
    let mut camera = Camera::default();
    camera.apply_command(CameraCommand::LookUp, true);
    camera.update();
    camera.apply_command(CameraCommand::LookUp, false);
    camera.update();
    assert_eq!(camera.elevation_angle(), DELTA_ANGLE);
}
