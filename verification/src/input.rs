//! What the keys and the pointer ask of the renderer.

use vstd::prelude::*;
use crate::camera::{CameraMode, FreeCamDirection};
use crate::scalar::Scalar;

verus! {

/// The keys the renderer listens to. Every other key is `Other`.
#[derive(Clone, Copy, Debug, PartialEq, Eq, Structural)]
pub enum Key {
    T,
    F,
    F12,
    Escape,
    D,
    G,
    S,
    Num1,
    Num2,
    Num3,
    Num4,
    Q,
    E,
    R,
    C,
    P,
    Up,
    Down,
    Left,
    Right,
    Other,
}

/// What happened to a key.
#[derive(Clone, Copy, Debug, PartialEq, Eq, Structural)]
pub enum KeyAction {
    Press,
    Release,
    Repeat,
}

/// What a key stroke asks for.
#[derive(Clone, Copy, Debug, PartialEq, Eq, Structural)]
pub enum Command {
    TogglePassiveTracking,
    ToggleFullscreen,
    Quit,
    ToggleDisk,
    ToggleLensing,
    SwitchShader,
    SetMode(CameraMode),
    RollLeft,
    RollRight,
    ResetRoll,
    ToggleCameraType,
    Screenshot,
    Move(FreeCamDirection),
}

/// What a press of the primary pointer button starts.
#[derive(Clone, Copy, Debug, PartialEq, Eq, Structural)]
pub enum PressEffect {
    /// The press landed on the screenshot icon.
    Screenshot,
    /// The press landed elsewhere: the camera is being dragged.
    BeginDrag,
}

/// The command a key is bound to while it goes down.
pub open spec fn pressed(key: Key) -> Option<Command> {
    match key {
        Key::T => Some(Command::TogglePassiveTracking),
        Key::F => Some(Command::ToggleFullscreen),
        Key::F12 => Some(Command::ToggleFullscreen),
        Key::Escape => Some(Command::Quit),
        Key::D => Some(Command::ToggleDisk),
        Key::G => Some(Command::ToggleLensing),
        Key::S => Some(Command::SwitchShader),
        Key::Num1 => Some(Command::SetMode(CameraMode::FreeOrbit)),
        Key::Num2 => Some(Command::SetMode(CameraMode::AutoOrbit)),
        Key::Num3 => Some(Command::SetMode(CameraMode::FrontView)),
        Key::Num4 => Some(Command::SetMode(CameraMode::TopView)),
        Key::Q => Some(Command::RollLeft),
        Key::E => Some(Command::RollRight),
        Key::R => Some(Command::ResetRoll),
        Key::C => Some(Command::ToggleCameraType),
        Key::P => Some(Command::Screenshot),
        Key::Up => Some(Command::Move(FreeCamDirection::Up)),
        Key::Down => Some(Command::Move(FreeCamDirection::Down)),
        Key::Left => Some(Command::Move(FreeCamDirection::Left)),
        Key::Right => Some(Command::Move(FreeCamDirection::Right)),
        Key::Other => None,
    }
}

/// Whether the key is one of the four arrows.
pub open spec fn is_arrow(key: Key) -> bool {
    key == Key::Up || key == Key::Down || key == Key::Left || key == Key::Right
}

/// The command a key stroke asks for. Every bound key acts when it goes
/// down; only the arrows act again while they are held. A release asks for
/// nothing.
pub open spec fn bound_to(key: Key, action: KeyAction) -> Option<Command> {
    match action {
        KeyAction::Press => pressed(key),
        KeyAction::Repeat => if is_arrow(key) {
            pressed(key)
        } else {
            None
        },
        KeyAction::Release => None,
    }
}

/// Decides `bound_to`.
pub fn command_for(key: Key, action: KeyAction) -> (command: Option<Command>)
    ensures
        command == bound_to(key, action),
{
    let held = match action {
        KeyAction::Press => false,
        KeyAction::Repeat => true,
        KeyAction::Release => {
            return None;
        },
    };
    match key {
        Key::Up => Some(Command::Move(FreeCamDirection::Up)),
        Key::Down => Some(Command::Move(FreeCamDirection::Down)),
        Key::Left => Some(Command::Move(FreeCamDirection::Left)),
        Key::Right => Some(Command::Move(FreeCamDirection::Right)),
        _ => if held {
            None
        } else {
            match key {
                Key::T => Some(Command::TogglePassiveTracking),
                Key::F => Some(Command::ToggleFullscreen),
                Key::F12 => Some(Command::ToggleFullscreen),
                Key::Escape => Some(Command::Quit),
                Key::D => Some(Command::ToggleDisk),
                Key::G => Some(Command::ToggleLensing),
                Key::S => Some(Command::SwitchShader),
                Key::Num1 => Some(Command::SetMode(CameraMode::FreeOrbit)),
                Key::Num2 => Some(Command::SetMode(CameraMode::AutoOrbit)),
                Key::Num3 => Some(Command::SetMode(CameraMode::FrontView)),
                Key::Num4 => Some(Command::SetMode(CameraMode::TopView)),
                Key::Q => Some(Command::RollLeft),
                Key::E => Some(Command::RollRight),
                Key::R => Some(Command::ResetRoll),
                Key::C => Some(Command::ToggleCameraType),
                Key::P => Some(Command::Screenshot),
                _ => None,
            }
        },
    }
}

/// The three switches the keys flip.
#[derive(Clone, Copy, Debug, PartialEq, Eq, Structural)]
pub struct Switches {
    pub passive_tracking: bool,
    pub render_disk: bool,
    pub gravitational_lensing: bool,
}

impl Switches {
    /// The switches after `command`: its own switch is flipped, the others
    /// stay, and a command that owns no switch changes nothing.
    pub open spec fn after(self, command: Command) -> Switches {
        match command {
            Command::TogglePassiveTracking => Switches {
                passive_tracking: !self.passive_tracking,
                ..self
            },
            Command::ToggleDisk => Switches { render_disk: !self.render_disk, ..self },
            Command::ToggleLensing => Switches {
                gravitational_lensing: !self.gravitational_lensing,
                ..self
            },
            _ => self,
        }
    }

    /// The switches at start: disk and lensing on, passive tracking off.
    pub fn new() -> (switches: Switches)
        ensures
            !switches.passive_tracking,
            switches.render_disk,
            switches.gravitational_lensing,
    {
        Switches { passive_tracking: false, render_disk: true, gravitational_lensing: true }
    }

    /// Flips the switch that `command` owns, if it owns one.
    pub fn apply(&mut self, command: Command)
        ensures
            *final(self) == old(self).after(command),
    {
        match command {
            Command::TogglePassiveTracking => {
                self.passive_tracking = !self.passive_tracking;
            },
            Command::ToggleDisk => {
                self.render_disk = !self.render_disk;
            },
            Command::ToggleLensing => {
                self.gravitational_lensing = !self.gravitational_lensing;
            },
            _ => {},
        }
    }
}

/// Whether the point `(x, y)` lies in the square from `low` to `high` on
/// both axes, its border included.
pub open spec fn in_square(x: Scalar, y: Scalar, low: Scalar, high: Scalar) -> bool {
    low.at_most(x) && x.at_most(high) && low.at_most(y) && y.at_most(high)
}

/// What a press at `(x, y)` starts, the screenshot icon being the square
/// from `low` to `high`.
pub fn press_effect(x: Scalar, y: Scalar, low: Scalar, high: Scalar) -> (effect: PressEffect)
    ensures
        effect == if in_square(x, y, low, high) {
            PressEffect::Screenshot
        } else {
            PressEffect::BeginDrag
        },
{
    if low.le(x) && x.le(high) && low.le(y) && y.le(high) {
        PressEffect::Screenshot
    } else {
        PressEffect::BeginDrag
    }
}

/// Whether the pointer at `(x, y)` has reached the border of a window whose
/// last column is `right` and whose last row is `bottom`.
pub open spec fn on_border(x: Scalar, y: Scalar, right: Scalar, bottom: Scalar) -> bool {
    let zero = Scalar { bits: 0 };
    x.at_most(zero) || right.at_most(x) || y.at_most(zero) || bottom.at_most(y)
}

/// Decides `on_border`.
pub fn pointer_on_border(x: Scalar, y: Scalar, right: Scalar, bottom: Scalar) -> (b: bool)
    ensures
        b == on_border(x, y, right, bottom),
{
    let zero = Scalar::zero();
    x.le(zero) || right.le(x) || y.le(zero) || bottom.le(y)
}

} // verus!
