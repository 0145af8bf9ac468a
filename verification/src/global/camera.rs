//! The free-fly keyboard camera.
//!
//! The camera keeps its orientation as two angles in a fixed integer unit, a
//! right angle split into `RIGHT_ANGLE` parts: `yaw` turns about the world's
//! vertical axis and `elevation` tilts toward it.  Ten flags record which
//! movement keys are held.  Each `update` turns the held-key flags into one
//! orientation step, clamping the elevation just short of straight up or
//! down, and reports in which of the camera's directions the position should
//! move.  Turning the angles into an actual view direction and moving the
//! position are left to the caller, which owns the floating-point rendering
//! state.

use vstd::prelude::*;

verus! {

/// Angle units in a right angle.
pub const RIGHT_ANGLE: i32 = 1_000_000;

/// Angle units in a full turn: four right angles.
pub const FULL_TURN: i32 = 4_000_000;

/// How far one update turns or tilts: a fiftieth of a right angle.
pub const DELTA_ANGLE: i32 = 20_000;

/// The margin kept between the elevation and a straight-up or straight-down
/// right angle: a thousandth of the right angle.
pub const ELEVATION_MARGIN: i32 = 1_000;

/// Highest elevation the camera may reach: a right angle less the margin.
pub const MAX_ELEVATION_ANGLE: i32 = 999_000;

/// Lowest elevation the camera may reach: the margin less a right angle.
pub const MIN_ELEVATION_ANGLE: i32 = -999_000;

/// What a `Camera` holds: its orientation and the held-key flags.
pub ghost struct CameraView {
    pub yaw: int,
    pub elevation: int,
    pub should_move_right: bool,
    pub should_move_left: bool,
    pub should_move_forward: bool,
    pub should_move_backward: bool,
    pub should_move_up: bool,
    pub should_move_down: bool,
    pub should_turn_left: bool,
    pub should_turn_right: bool,
    pub should_look_up: bool,
    pub should_look_down: bool,
}

impl CameraView {
    /// The state a fresh camera starts in: looking level straight ahead, no
    /// key held.
    pub open spec fn start() -> CameraView {
        CameraView {
            yaw: 0,
            elevation: 0,
            should_move_right: false,
            should_move_left: false,
            should_move_forward: false,
            should_move_backward: false,
            should_move_up: false,
            should_move_down: false,
            should_turn_left: false,
            should_turn_right: false,
            should_look_up: false,
            should_look_down: false,
        }
    }
}

/// `1` when only the first flag is held, `-1` when only the second is, else `0`.
pub open spec fn flag_sign(positive: bool, negative: bool) -> int {
    (if positive {
        1int
    } else {
        0int
    }) - (if negative {
        1int
    } else {
        0int
    })
}

/// Brings an angle moved by at most one step back into `[0, FULL_TURN)`.
pub open spec fn wrap_turn(angle: int) -> int {
    if angle < 0 {
        angle + FULL_TURN
    } else if angle >= FULL_TURN {
        angle - FULL_TURN
    } else {
        angle
    }
}

/// On the angles one update can produce, wrapping is plain modular
/// arithmetic: the yaw is the turned angle's remainder in a full turn.
pub proof fn lemma_wrap_turn_is_mod(angle: int)
    requires
        -FULL_TURN < angle < 2 * FULL_TURN,
    ensures
        wrap_turn(angle) == angle % (FULL_TURN as int),
{
    if angle < 0 {
        vstd::arithmetic::div_mod::lemma_mod_multiples_vanish(1, angle, FULL_TURN as int);
        vstd::arithmetic::div_mod::lemma_small_mod((angle + FULL_TURN) as nat, FULL_TURN as nat);
    } else if angle >= FULL_TURN {
        vstd::arithmetic::div_mod::lemma_mod_multiples_vanish(
            1,
            angle - FULL_TURN,
            FULL_TURN as int,
        );
        vstd::arithmetic::div_mod::lemma_small_mod((angle - FULL_TURN) as nat, FULL_TURN as nat);
    } else {
        vstd::arithmetic::div_mod::lemma_small_mod(angle as nat, FULL_TURN as nat);
    }
}

/// Keeps an elevation between the two limits.
pub open spec fn clamp_elevation(angle: int) -> int {
    if angle >= MAX_ELEVATION_ANGLE {
        MAX_ELEVATION_ANGLE as int
    } else if angle <= MIN_ELEVATION_ANGLE {
        MIN_ELEVATION_ANGLE as int
    } else {
        angle
    }
}

/// One key of the camera's control scheme, as the main loop reads them.
#[derive(Clone, Copy, Debug, PartialEq, Eq, Structural)]
pub enum CameraCommand {
    MoveForward,
    MoveBackward,
    MoveLeft,
    MoveRight,
    MoveUp,
    MoveDown,
    TurnLeft,
    TurnRight,
    LookUp,
    LookDown,
}

impl CameraView {
    /// The state after one command's key is pressed (`active`) or released.
    pub open spec fn with_command(self, command: CameraCommand, active: bool) -> CameraView {
        match command {
            CameraCommand::MoveForward => (CameraView { should_move_forward: active, ..self }),
            CameraCommand::MoveBackward => (CameraView { should_move_backward: active, ..self }),
            CameraCommand::MoveLeft => (CameraView { should_move_left: active, ..self }),
            CameraCommand::MoveRight => (CameraView { should_move_right: active, ..self }),
            CameraCommand::MoveUp => (CameraView { should_move_up: active, ..self }),
            CameraCommand::MoveDown => (CameraView { should_move_down: active, ..self }),
            CameraCommand::TurnLeft => (CameraView { should_turn_left: active, ..self }),
            CameraCommand::TurnRight => (CameraView { should_turn_right: active, ..self }),
            CameraCommand::LookUp => (CameraView { should_look_up: active, ..self }),
            CameraCommand::LookDown => (CameraView { should_look_down: active, ..self }),
        }
    }
}

/// In which of the camera's own directions the position moves this frame:
/// each component is `1`, `0` or `-1`.
pub struct CameraStep {
    pub forward: i8,
    pub right: i8,
    pub up: i8,
}

/// The free-fly camera: an orientation in angle units and the held-key flags.
#[derive(Debug)]
pub struct Camera {
    yaw: i32,
    elevation: i32,
    should_move_right: bool,
    should_move_left: bool,
    should_move_forward: bool,
    should_move_backward: bool,
    should_move_up: bool,
    should_move_down: bool,
    should_turn_left: bool,
    should_turn_right: bool,
    should_look_up: bool,
    should_look_down: bool,
}

impl View for Camera {
    type V = CameraView;

    closed spec fn view(&self) -> CameraView {
        CameraView {
            yaw: self.yaw as int,
            elevation: self.elevation as int,
            should_move_right: self.should_move_right,
            should_move_left: self.should_move_left,
            should_move_forward: self.should_move_forward,
            should_move_backward: self.should_move_backward,
            should_move_up: self.should_move_up,
            should_move_down: self.should_move_down,
            should_turn_left: self.should_turn_left,
            should_turn_right: self.should_turn_right,
            should_look_up: self.should_look_up,
            should_look_down: self.should_look_down,
        }
    }
}

impl Camera {
    /// The orientation stays a real one: the yaw inside one turn, the
    /// elevation between its limits.  Every camera satisfies this at all
    /// times: the constructor establishes it and every method keeps it.
    #[verifier::type_invariant]
    pub open spec fn wf(self) -> bool {
        &&& 0 <= self@.yaw < FULL_TURN
        &&& MIN_ELEVATION_ANGLE <= self@.elevation <= MAX_ELEVATION_ANGLE
    }

    /// Press (`should_move == true`) or release the move-right key.
    pub fn move_right(&mut self, should_move: bool)
        ensures
            final(self)@ == (CameraView { should_move_right: should_move, ..old(self)@ }),
    {
        proof {
            use_type_invariant(&*self);
        }
        self.should_move_right = should_move;
    }

    /// Press or release the move-left key.
    pub fn move_left(&mut self, should_move: bool)
        ensures
            final(self)@ == (CameraView { should_move_left: should_move, ..old(self)@ }),
    {
        proof {
            use_type_invariant(&*self);
        }
        self.should_move_left = should_move;
    }

    /// Press or release the move-forward key.
    pub fn move_forward(&mut self, should_move: bool)
        ensures
            final(self)@ == (CameraView { should_move_forward: should_move, ..old(self)@ }),
    {
        proof {
            use_type_invariant(&*self);
        }
        self.should_move_forward = should_move;
    }

    /// Press or release the move-backward key.
    pub fn move_backward(&mut self, should_move: bool)
        ensures
            final(self)@ == (CameraView { should_move_backward: should_move, ..old(self)@ }),
    {
        proof {
            use_type_invariant(&*self);
        }
        self.should_move_backward = should_move;
    }

    /// Press or release the move-up key.
    pub fn move_up(&mut self, should_move: bool)
        ensures
            final(self)@ == (CameraView { should_move_up: should_move, ..old(self)@ }),
    {
        proof {
            use_type_invariant(&*self);
        }
        self.should_move_up = should_move;
    }

    /// Press or release the move-down key.
    pub fn move_down(&mut self, should_move: bool)
        ensures
            final(self)@ == (CameraView { should_move_down: should_move, ..old(self)@ }),
    {
        proof {
            use_type_invariant(&*self);
        }
        self.should_move_down = should_move;
    }

    /// Press or release the turn-left key.
    pub fn turn_left(&mut self, should_turn: bool)
        ensures
            final(self)@ == (CameraView { should_turn_left: should_turn, ..old(self)@ }),
    {
        proof {
            use_type_invariant(&*self);
        }
        self.should_turn_left = should_turn;
    }

    /// Press or release the turn-right key.
    pub fn turn_right(&mut self, should_turn: bool)
        ensures
            final(self)@ == (CameraView { should_turn_right: should_turn, ..old(self)@ }),
    {
        proof {
            use_type_invariant(&*self);
        }
        self.should_turn_right = should_turn;
    }

    /// Press or release the look-up key.
    pub fn look_up(&mut self, should_look: bool)
        ensures
            final(self)@ == (CameraView { should_look_up: should_look, ..old(self)@ }),
    {
        proof {
            use_type_invariant(&*self);
        }
        self.should_look_up = should_look;
    }

    /// Press or release the look-down key.
    pub fn look_down(&mut self, should_look: bool)
        ensures
            final(self)@ == (CameraView { should_look_down: should_look, ..old(self)@ }),
    {
        proof {
            use_type_invariant(&*self);
        }
        self.should_look_down = should_look;
    }

    /// Press or release the key of any one command.
    pub fn apply_command(&mut self, command: CameraCommand, active: bool)
        ensures
            final(self)@ == old(self)@.with_command(command, active),
    {
        match command {
            CameraCommand::MoveForward => self.move_forward(active),
            CameraCommand::MoveBackward => self.move_backward(active),
            CameraCommand::MoveLeft => self.move_left(active),
            CameraCommand::MoveRight => self.move_right(active),
            CameraCommand::MoveUp => self.move_up(active),
            CameraCommand::MoveDown => self.move_down(active),
            CameraCommand::TurnLeft => self.turn_left(active),
            CameraCommand::TurnRight => self.turn_right(active),
            CameraCommand::LookUp => self.look_up(active),
            CameraCommand::LookDown => self.look_down(active),
        }
    }

    /// Applies one frame's worth of the held keys to the orientation and
    /// says in which of the camera's directions the position moves.
    ///
    /// The yaw turns one step toward the held turn key and stays inside one
    /// full turn; the elevation tilts one step toward the held look key but
    /// never beyond its limits.  The flags themselves stay as they are.
    pub fn update(&mut self) -> (step: CameraStep)
        ensures
            final(self)@ == (CameraView {
                yaw: wrap_turn(
                    old(self)@.yaw + DELTA_ANGLE * flag_sign(
                        old(self)@.should_turn_left,
                        old(self)@.should_turn_right,
                    ),
                ),
                elevation: clamp_elevation(
                    old(self)@.elevation + DELTA_ANGLE * flag_sign(
                        old(self)@.should_look_up,
                        old(self)@.should_look_down,
                    ),
                ),
                ..old(self)@
            }),
            step.forward as int == flag_sign(
                old(self)@.should_move_forward,
                old(self)@.should_move_backward,
            ),
            step.right as int == flag_sign(
                old(self)@.should_move_right,
                old(self)@.should_move_left,
            ),
            step.up as int == flag_sign(old(self)@.should_move_up, old(self)@.should_move_down),
    {
        proof {
            use_type_invariant(&*self);
        }
        let turn_sign = sign_unit(self.should_turn_left, self.should_turn_right);
        let mut yaw = self.yaw + DELTA_ANGLE * (turn_sign as i32);
        if yaw < 0 {
            yaw = yaw + FULL_TURN;
        } else if yaw >= FULL_TURN {
            yaw = yaw - FULL_TURN;
        }
        self.yaw = yaw;

        let look_sign = sign_unit(self.should_look_up, self.should_look_down);
        let mut elevation = self.elevation + DELTA_ANGLE * (look_sign as i32);
        if elevation >= MAX_ELEVATION_ANGLE {
            elevation = MAX_ELEVATION_ANGLE;
        } else if elevation <= MIN_ELEVATION_ANGLE {
            elevation = MIN_ELEVATION_ANGLE;
        }
        self.elevation = elevation;

        CameraStep {
            forward: sign_unit(self.should_move_forward, self.should_move_backward),
            right: sign_unit(self.should_move_right, self.should_move_left),
            up: sign_unit(self.should_move_up, self.should_move_down),
        }
    }
}

impl Camera {
    /// The yaw, in angle units.
    pub fn yaw_angle(&self) -> (angle: i32)
        ensures
            angle as int == self@.yaw,
    {
        self.yaw
    }

    /// The elevation, in angle units.
    pub fn elevation_angle(&self) -> (angle: i32)
        ensures
            angle as int == self@.elevation,
    {
        self.elevation
    }
}

impl Default for Camera {
    /// A fresh camera: looking level straight ahead, no key held.
    fn default() -> (camera: Camera)
        ensures
            camera@ == CameraView::start(),
            camera.wf(),
    {
        Camera {
            yaw: 0,
            elevation: 0,
            should_move_right: false,
            should_move_left: false,
            should_move_forward: false,
            should_move_backward: false,
            should_move_up: false,
            should_move_down: false,
            should_turn_left: false,
            should_turn_right: false,
            should_look_up: false,
            should_look_down: false,
        }
    }
}

/// `1` when only the first flag is held, `-1` when only the second is, else `0`.
fn sign_unit(positive: bool, negative: bool) -> (sign: i8)
    ensures
        sign as int == flag_sign(positive, negative),
{
    if positive && !negative {
        1
    } else if negative && !positive {
        -1
    } else {
        0
    }
}

} // verus!
