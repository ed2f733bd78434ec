use black_hole::camera::{
    drag_effect, faces_origin, passive_effect, position_source, reorientation, toggle, CameraMode,
    CameraType, FreeCamDirection, PointerEffect, PositionSource, Reorientation,
};
use black_hole::fps::FpsCounter;
use black_hole::input::{
    command_for, pointer_on_border, press_effect, Command, Key, KeyAction, PressEffect, Switches,
};
use black_hole::scalar::Scalar;
use black_hole::shader_manager::{ShaderManager, ShaderType};

fn scalar(x: f64) -> Scalar {
    Scalar::from_bits(x.to_bits())
}

#[test]
fn a_new_manager_starts_with_the_simple_shader() {
    let manager = ShaderManager::new(11, 22, 33);
    assert_eq!(manager.simple, 11);
    assert_eq!(manager.full, 22);
    assert_eq!(manager.debug, 33);
    assert_eq!(manager.current, ShaderType::Simple);
    assert_eq!(manager.current_id(), 11);
}

#[test]
fn switch_goes_round_the_three_shaders() {
    let mut manager = ShaderManager::new(11, 22, 33);
    manager.switch();
    assert_eq!(manager.current, ShaderType::Full);
    assert_eq!(manager.current_id(), 22);
    manager.switch();
    assert_eq!(manager.current, ShaderType::Debug);
    assert_eq!(manager.current_id(), 33);
    manager.switch();
    assert_eq!(manager.current, ShaderType::Simple);
    assert_eq!(manager.current_id(), 11);
    assert_eq!((manager.simple, manager.full, manager.debug), (11, 22, 33));
}

#[test]
fn a_new_counter_has_seen_no_frame() {
    assert_eq!(FpsCounter::new().frame_count(), 0);
}

#[test]
fn the_counter_reports_once_a_second_has_passed() {
    let mut counter = FpsCounter::new();
    assert_eq!(counter.update(scalar(0.25)), None);
    assert_eq!(counter.update(scalar(0.5)), None);
    assert_eq!(counter.update(scalar(0.9999999)), None);
    assert_eq!(counter.frame_count(), 3);
    assert_eq!(counter.update(scalar(1.0)), Some(4));
    assert_eq!(counter.frame_count(), 0);
    assert_eq!(counter.update(scalar(0.016)), None);
    assert_eq!(counter.update(scalar(2.5)), Some(2));
    assert_eq!(counter.update(scalar(f64::NAN)), None);
    assert_eq!(counter.frame_count(), 1);
}

#[test]
fn taking_the_camera_in_hand_ends_the_automatic_orbit() {
    assert_eq!(CameraMode::AutoOrbit.release(), CameraMode::FreeOrbit);
    assert_eq!(CameraMode::FreeOrbit.release(), CameraMode::FreeOrbit);
    assert_eq!(CameraMode::FrontView.release(), CameraMode::FrontView);
    assert_eq!(CameraMode::TopView.release(), CameraMode::TopView);
}

#[test]
fn the_position_comes_from_the_preset_the_free_position_or_the_orbit() {
    for camera_type in [CameraType::LockedCam, CameraType::FreeCam] {
        assert_eq!(
            position_source(camera_type, CameraMode::FrontView),
            PositionSource::FrontPreset
        );
        assert_eq!(position_source(camera_type, CameraMode::TopView), PositionSource::TopPreset);
    }
    for mode in [CameraMode::FreeOrbit, CameraMode::AutoOrbit] {
        assert_eq!(position_source(CameraType::FreeCam, mode), PositionSource::FreePosition);
        assert_eq!(position_source(CameraType::LockedCam, mode), PositionSource::Orbit);
    }
}

#[test]
fn only_a_free_camera_in_free_orbit_looks_away_from_the_origin() {
    for mode in [
        CameraMode::FreeOrbit,
        CameraMode::AutoOrbit,
        CameraMode::FrontView,
        CameraMode::TopView,
    ] {
        assert!(faces_origin(CameraType::LockedCam, mode));
        assert_eq!(faces_origin(CameraType::FreeCam, mode), mode != CameraMode::FreeOrbit);
    }
}

#[test]
fn a_mode_request_reorients_only_a_free_camera() {
    for current in [CameraMode::FreeOrbit, CameraMode::AutoOrbit, CameraMode::TopView] {
        for requested in [
            CameraMode::FreeOrbit,
            CameraMode::AutoOrbit,
            CameraMode::FrontView,
            CameraMode::TopView,
        ] {
            assert_eq!(
                reorientation(CameraType::LockedCam, current, requested),
                Reorientation::Keep
            );
        }
        assert_eq!(
            reorientation(CameraType::FreeCam, current, CameraMode::FrontView),
            Reorientation::SnapToFront
        );
        assert_eq!(
            reorientation(CameraType::FreeCam, current, CameraMode::TopView),
            Reorientation::SnapToTop
        );
        assert_eq!(
            reorientation(CameraType::FreeCam, current, CameraMode::AutoOrbit),
            Reorientation::Keep
        );
    }
    assert_eq!(
        reorientation(CameraType::FreeCam, CameraMode::AutoOrbit, CameraMode::FreeOrbit),
        Reorientation::FreezeOrbit
    );
    assert_eq!(
        reorientation(CameraType::FreeCam, CameraMode::TopView, CameraMode::FreeOrbit),
        Reorientation::Keep
    );
    assert_eq!(
        reorientation(CameraType::FreeCam, CameraMode::FreeOrbit, CameraMode::FreeOrbit),
        Reorientation::Keep
    );
}

#[test]
fn a_drag_turns_the_camera_unless_it_is_locked_to_a_preset() {
    assert_eq!(drag_effect(CameraType::FreeCam, CameraMode::AutoOrbit), PointerEffect::FaceOrigin);
    assert_eq!(drag_effect(CameraType::FreeCam, CameraMode::FreeOrbit), PointerEffect::Rotate);
    assert_eq!(drag_effect(CameraType::FreeCam, CameraMode::FrontView), PointerEffect::Rotate);
    assert_eq!(drag_effect(CameraType::FreeCam, CameraMode::TopView), PointerEffect::Rotate);
    assert_eq!(drag_effect(CameraType::LockedCam, CameraMode::AutoOrbit), PointerEffect::Rotate);
    assert_eq!(drag_effect(CameraType::LockedCam, CameraMode::FreeOrbit), PointerEffect::Rotate);
    assert_eq!(drag_effect(CameraType::LockedCam, CameraMode::FrontView), PointerEffect::Track);
    assert_eq!(drag_effect(CameraType::LockedCam, CameraMode::TopView), PointerEffect::Track);
}

#[test]
fn passive_tracking_turns_the_camera_in_every_mode_but_one() {
    assert_eq!(
        passive_effect(CameraType::FreeCam, CameraMode::AutoOrbit),
        PointerEffect::FaceOrigin
    );
    for mode in [CameraMode::FreeOrbit, CameraMode::FrontView, CameraMode::TopView] {
        assert_eq!(passive_effect(CameraType::FreeCam, mode), PointerEffect::Rotate);
    }
    for mode in [
        CameraMode::FreeOrbit,
        CameraMode::AutoOrbit,
        CameraMode::FrontView,
        CameraMode::TopView,
    ] {
        assert_eq!(passive_effect(CameraType::LockedCam, mode), PointerEffect::Rotate);
    }
}

#[test]
fn toggling_the_type_brings_a_preset_back_as_free_orbit() {
    assert_eq!(
        toggle(CameraType::LockedCam, CameraMode::TopView),
        (CameraType::FreeCam, CameraMode::TopView)
    );
    assert_eq!(
        toggle(CameraType::LockedCam, CameraMode::AutoOrbit),
        (CameraType::FreeCam, CameraMode::AutoOrbit)
    );
    assert_eq!(
        toggle(CameraType::FreeCam, CameraMode::TopView),
        (CameraType::LockedCam, CameraMode::FreeOrbit)
    );
    assert_eq!(
        toggle(CameraType::FreeCam, CameraMode::FrontView),
        (CameraType::LockedCam, CameraMode::FreeOrbit)
    );
    assert_eq!(
        toggle(CameraType::FreeCam, CameraMode::AutoOrbit),
        (CameraType::LockedCam, CameraMode::AutoOrbit)
    );
    assert_eq!(
        toggle(CameraType::FreeCam, CameraMode::FreeOrbit),
        (CameraType::LockedCam, CameraMode::FreeOrbit)
    );
}

#[test]
fn every_bound_key_acts_when_it_goes_down() {
    let bindings = vec![
        (Key::T, Command::TogglePassiveTracking),
        (Key::F, Command::ToggleFullscreen),
        (Key::F12, Command::ToggleFullscreen),
        (Key::Escape, Command::Quit),
        (Key::D, Command::ToggleDisk),
        (Key::G, Command::ToggleLensing),
        (Key::S, Command::SwitchShader),
        (Key::Num1, Command::SetMode(CameraMode::FreeOrbit)),
        (Key::Num2, Command::SetMode(CameraMode::AutoOrbit)),
        (Key::Num3, Command::SetMode(CameraMode::FrontView)),
        (Key::Num4, Command::SetMode(CameraMode::TopView)),
        (Key::Q, Command::RollLeft),
        (Key::E, Command::RollRight),
        (Key::R, Command::ResetRoll),
        (Key::C, Command::ToggleCameraType),
        (Key::P, Command::Screenshot),
        (Key::Up, Command::Move(FreeCamDirection::Up)),
        (Key::Down, Command::Move(FreeCamDirection::Down)),
        (Key::Left, Command::Move(FreeCamDirection::Left)),
        (Key::Right, Command::Move(FreeCamDirection::Right)),
    ];
    for (key, command) in bindings {
        assert_eq!(command_for(key, KeyAction::Press), Some(command));
        assert_eq!(command_for(key, KeyAction::Release), None);
        let arrow = matches!(command, Command::Move(_));
        assert_eq!(command_for(key, KeyAction::Repeat), if arrow { Some(command) } else { None });
    }
    assert_eq!(command_for(Key::Other, KeyAction::Press), None);
    assert_eq!(command_for(Key::Other, KeyAction::Repeat), None);
}

#[test]
fn each_switch_is_flipped_by_its_own_command_only() {
    let mut switches = Switches::new();
    assert_eq!(
        switches,
        Switches { passive_tracking: false, render_disk: true, gravitational_lensing: true }
    );
    switches.apply(Command::TogglePassiveTracking);
    assert_eq!(
        switches,
        Switches { passive_tracking: true, render_disk: true, gravitational_lensing: true }
    );
    switches.apply(Command::ToggleDisk);
    assert_eq!(
        switches,
        Switches { passive_tracking: true, render_disk: false, gravitational_lensing: true }
    );
    switches.apply(Command::ToggleLensing);
    assert_eq!(
        switches,
        Switches { passive_tracking: true, render_disk: false, gravitational_lensing: false }
    );
    switches.apply(Command::Quit);
    switches.apply(Command::Screenshot);
    switches.apply(Command::SetMode(CameraMode::TopView));
    assert_eq!(
        switches,
        Switches { passive_tracking: true, render_disk: false, gravitational_lensing: false }
    );
    switches.apply(Command::ToggleDisk);
    assert!(switches.render_disk);
}

#[test]
fn a_press_on_the_icon_takes_a_screenshot() {
    let low = scalar(20.0);
    let high = scalar(84.0);
    assert_eq!(press_effect(scalar(20.0), scalar(20.0), low, high), PressEffect::Screenshot);
    assert_eq!(press_effect(scalar(84.0), scalar(84.0), low, high), PressEffect::Screenshot);
    assert_eq!(press_effect(scalar(50.0), scalar(30.0), low, high), PressEffect::Screenshot);
    assert_eq!(press_effect(scalar(19.999), scalar(30.0), low, high), PressEffect::BeginDrag);
    assert_eq!(press_effect(scalar(50.0), scalar(84.001), low, high), PressEffect::BeginDrag);
    assert_eq!(press_effect(scalar(500.0), scalar(400.0), low, high), PressEffect::BeginDrag);
    assert_eq!(press_effect(scalar(f64::NAN), scalar(30.0), low, high), PressEffect::BeginDrag);
}

#[test]
fn the_pointer_is_on_the_border_at_the_first_and_last_row_and_column() {
    let right = scalar(1919.0);
    let bottom = scalar(1079.0);
    assert!(pointer_on_border(scalar(0.0), scalar(500.0), right, bottom));
    assert!(pointer_on_border(scalar(-3.0), scalar(500.0), right, bottom));
    assert!(pointer_on_border(scalar(1919.0), scalar(500.0), right, bottom));
    assert!(pointer_on_border(scalar(500.0), scalar(0.0), right, bottom));
    assert!(pointer_on_border(scalar(500.0), scalar(1079.5), right, bottom));
    assert!(!pointer_on_border(scalar(500.0), scalar(500.0), right, bottom));
    assert!(!pointer_on_border(scalar(1918.9), scalar(1078.9), right, bottom));
    assert!(!pointer_on_border(scalar(0.1), scalar(0.1), right, bottom));
}
