//! The camera model: position and orientation of the eye, and the movement
//! intents that change them.
//!
//! Lengths, angles, speeds and pointer counts are whole numbers of
//! millionths; elapsed time is whole nanoseconds. Yaw and pitch are in
//! degrees, the field of view is in radians.

use vstd::prelude::*;
use crate::fixed::{
    add_saturating, clamp64, lemma_scaled_zero, mul_div, mul_div_unsigned, saturate, scaled,
    sub_saturating, NANOS_PER_SEC, UNIT,
};
use crate::vector::{lemma_unit_within, Vec3, Vec3View};

verus! {

/// The steepest pitch, up or down: 89 degrees.
pub const PITCH_LIMIT: i64 = 89_000_000;

/// A full turn: 360 degrees.
pub const FULL_TURN: i64 = 360_000_000;

/// The value of [`up`].
pub open spec fn spec_up() -> Vec3 {
    Vec3 { x: 0, y: UNIT, z: 0 }
}

/// The up direction of the world: the unit vector along the y axis.
#[verifier::when_used_as_spec(spec_up)]
pub fn up() -> (v: Vec3)
    ensures
        v == spec_up(),
{
    Vec3 { x: 0, y: UNIT, z: 0 }
}

/// A motion command for the camera.
#[derive(Clone, Copy, Debug, PartialEq, Eq, Structural)]
pub enum CameraMovement {
    /// Along the viewing direction.
    Forward,
    /// Against the viewing direction.
    Backward,
    /// Against the direction to the right of the viewing direction.
    Left,
    /// Along the direction to the right of the viewing direction.
    Right,
    /// Along up.
    Up,
    /// Against up.
    Down,
    /// A turn by pointer travel `(dx, dy)`: `dx` lowers the yaw, `dy` the
    /// pitch.
    Rotate(i64, i64),
}

/// Why a camera configuration was rejected.
#[derive(Clone, Copy, Debug, PartialEq, Eq, Structural)]
pub enum ConfigurationError {
    /// The field of view is not positive.
    FieldOfView,
    /// The aspect ratio is not positive.
    AspectRatio,
    /// The near plane is not in front of the eye, or the far plane is not
    /// beyond the near plane.
    ClipPlanes,
    /// The pitch is steeper than [`PITCH_LIMIT`].
    Pitch,
    /// The yaw is negative, or a full turn or more.
    Yaw,
    /// The viewing direction is not a unit vector, or is parallel to up.
    Front,
}

/// `p` limited to the pitch range.
pub open spec fn clamp_pitch(p: int) -> int {
    if p > PITCH_LIMIT {
        PITCH_LIMIT as int
    } else if p < -PITCH_LIMIT {
        -(PITCH_LIMIT as int)
    } else {
        p
    }
}

/// `y` brought back by one full turn where it left the range from zero to a
/// full turn.
pub open spec fn wrap_yaw(y: int) -> int {
    if y > FULL_TURN {
        y - FULL_TURN
    } else if y < 0 {
        y + FULL_TURN
    } else {
        y
    }
}

/// Whether a yaw of `target` is at least zero and less than a full turn
/// once it is wrapped: it is no more than one turn out of that range, and
/// not exactly a full turn, which wrapping leaves as it is.
pub open spec fn yaw_lands_within_turn(target: int) -> bool {
    -FULL_TURN <= target < 2 * FULL_TURN && target != FULL_TURN
}

/// What a rate per second amounts to over `nanos` nanoseconds.
pub open spec fn over_time(rate: int, nanos: int) -> int {
    scaled(rate, nanos, NANOS_PER_SEC as int)
}

/// The fixed-point product of two quantities.
pub open spec fn times(a: int, b: int) -> int {
    scaled(a, b, UNIT as int)
}

/// `p` moved by `dist` along `dir`.
pub open spec fn advanced(p: Vec3View, dir: Vec3View, dist: int) -> Vec3View {
    Vec3View {
        x: clamp64(p.x + times(dir.x, dist)),
        y: clamp64(p.y + times(dir.y, dist)),
        z: clamp64(p.z + times(dir.z, dist)),
    }
}

/// `p` moved by `dist` against `dir`.
pub open spec fn retreated(p: Vec3View, dir: Vec3View, dist: int) -> Vec3View {
    Vec3View {
        x: clamp64(p.x - times(dir.x, dist)),
        y: clamp64(p.y - times(dir.y, dist)),
        z: clamp64(p.z - times(dir.z, dist)),
    }
}

/// The direction to the right of `front`: the normalised cross product of
/// `front` and [`up`].
pub open spec fn right_of(front: Vec3View) -> Vec3View {
    front.cross(up()@).normalized()
}

/// Whether `front` can be a viewing direction: a unit vector that is not
/// parallel to [`up`].
pub open spec fn front_valid(front: Vec3View) -> bool {
    front.is_unit() && front.cross(up()@) != Vec3View::zero()
}

/// The mathematical value of a camera.
pub struct CameraView {
    /// Where the eye is.
    pub pos: Vec3View,
    /// The tilt above the horizon, in degrees.
    pub pitch: int,
    /// The turn about the up axis, in degrees.
    pub yaw: int,
    /// The direction in which the eye looks.
    pub front: Vec3View,
    /// Length travelled per second.
    pub move_speed: int,
    /// Degrees turned per second and pointer count.
    pub mouse_speed: int,
    /// The vertical field of view, in radians.
    pub fov: int,
    /// Width of the picture over its height.
    pub aspect: int,
    /// Distance of the near clipping plane.
    pub near: int,
    /// Distance of the far clipping plane.
    pub far: int,
}

impl CameraView {
    /// What holds of every camera: the pitch is within its limit, the
    /// viewing direction is a unit vector not parallel to up, and the lens
    /// is one that a projection can be made from.
    pub open spec fn wf(self) -> bool {
        &&& -PITCH_LIMIT <= self.pitch <= PITCH_LIMIT
        &&& front_valid(self.front)
        &&& self.fov > 0
        &&& self.aspect > 0
        &&& 0 < self.near < self.far
    }

    /// The length that the camera travels in `nanos` nanoseconds.
    pub open spec fn stride(self, nanos: int) -> int {
        over_time(self.move_speed, nanos)
    }

    /// The angle by which pointer travel `d` turns the camera when it is
    /// applied over `nanos` nanoseconds.
    pub open spec fn turn(self, nanos: int, d: int) -> int {
        times(d, over_time(self.mouse_speed, nanos))
    }

    /// The camera after `movement` was applied to it for `nanos`
    /// nanoseconds.
    pub open spec fn moved(self, nanos: int, movement: CameraMovement) -> CameraView {
        let stride = self.stride(nanos);
        match movement {
            CameraMovement::Forward => CameraView {
                pos: advanced(self.pos, self.front, stride),
                ..self
            },
            CameraMovement::Backward => CameraView {
                pos: retreated(self.pos, self.front, stride),
                ..self
            },
            CameraMovement::Left => CameraView {
                pos: retreated(self.pos, right_of(self.front), stride),
                ..self
            },
            CameraMovement::Right => CameraView {
                pos: advanced(self.pos, right_of(self.front), stride),
                ..self
            },
            CameraMovement::Up => CameraView { pos: advanced(self.pos, up()@, stride), ..self },
            CameraMovement::Down => CameraView { pos: retreated(self.pos, up()@, stride), ..self },
            CameraMovement::Rotate(dx, dy) => CameraView {
                pitch: clamp_pitch(self.pitch - self.turn(nanos, dy as int)),
                yaw: clamp64(wrap_yaw(self.yaw - self.turn(nanos, dx as int))),
                ..self
            },
        }
    }

    /// The camera after each of `movements` was applied to it in turn, each
    /// for `nanos` nanoseconds.
    pub open spec fn moved_each(self, nanos: int, movements: Seq<CameraMovement>) -> CameraView
        decreases movements.len(),
    {
        if movements.len() == 0 {
            self
        } else {
            self.moved_each(nanos, movements.drop_last()).moved(nanos, movements.last())
        }
    }
}

/// What a view matrix and a projection matrix are made from.
#[derive(Clone, Copy, Debug, PartialEq, Eq, Structural)]
pub struct ViewParams {
    /// Where the eye is.
    pub eye: Vec3,
    /// The point that the eye looks at.
    pub center: Vec3,
    /// The up direction.
    pub up: Vec3,
    /// The vertical field of view, in radians.
    pub fov: i64,
    /// Width of the picture over its height.
    pub aspect: i64,
    /// Distance of the near clipping plane.
    pub near: i64,
    /// Distance of the far clipping plane.
    pub far: i64,
}

/// The configuration that a camera is built from.
#[derive(Clone, Copy, Debug, PartialEq, Eq, Structural)]
pub struct CameraBuilder {
    /// Where the eye starts.
    pub pos: Vec3,
    /// The initial pitch, in degrees.
    pub pitch: i64,
    /// The initial yaw, in degrees.
    pub yaw: i64,
    /// Length travelled per second.
    pub move_speed: i64,
    /// Degrees turned per second and pointer count.
    pub mouse_speed: i64,
    /// The vertical field of view, in radians.
    pub fov: i64,
    /// Width of the picture over its height.
    pub aspect: i64,
    /// Distance of the near clipping plane.
    pub near: i64,
    /// Distance of the far clipping plane.
    pub far: i64,
}

/// The value of [`initial_front`].
pub open spec fn spec_initial_front() -> Vec3 {
    Vec3 { x: 0, y: 0, z: -1_000_000i64 }
}

/// The viewing direction of the standard configuration: down the negative
/// z axis, which is where yaw 90 and pitch 0 look.
#[verifier::when_used_as_spec(spec_initial_front)]
pub fn initial_front() -> (v: Vec3)
    ensures
        v == spec_initial_front(),
{
    Vec3 { x: 0, y: 0, z: -1_000_000 }
}

impl CameraBuilder {
    /// The configuration that [`Default`] gives: the eye three units up the
    /// z axis, yaw 90 and pitch 0, 2.5 units per second, 40 degrees per
    /// second and count, a field of view of 45 at 8 to 5, and clipping
    /// planes at 0.1 and 100.
    pub open spec fn standard() -> CameraBuilder {
        CameraBuilder {
            pos: Vec3 { x: 0, y: 0, z: 3_000_000 },
            pitch: 0,
            yaw: 90_000_000,
            move_speed: 2_500_000,
            mouse_speed: 40_000_000,
            fov: 45_000_000,
            aspect: 1_600_000,
            near: 100_000,
            far: 100_000_000,
        }
    }

    /// The first fault of the configuration with the viewing direction
    /// `front`, if it has one.
    pub open spec fn error(self, front: Vec3View) -> Option<ConfigurationError> {
        if !(self.fov > 0) {
            Some(ConfigurationError::FieldOfView)
        } else if !(self.aspect > 0) {
            Some(ConfigurationError::AspectRatio)
        } else if !(0 < self.near < self.far) {
            Some(ConfigurationError::ClipPlanes)
        } else if !(-PITCH_LIMIT <= self.pitch <= PITCH_LIMIT) {
            Some(ConfigurationError::Pitch)
        } else if !(0 <= self.yaw < FULL_TURN) {
            Some(ConfigurationError::Yaw)
        } else if !front_valid(front) {
            Some(ConfigurationError::Front)
        } else {
            None
        }
    }

    /// The camera that the configuration describes when it looks along
    /// `front`.
    pub open spec fn initial(self, front: Vec3View) -> CameraView {
        CameraView {
            pos: self.pos@,
            pitch: self.pitch as int,
            yaw: self.yaw as int,
            front,
            move_speed: self.move_speed as int,
            mouse_speed: self.mouse_speed as int,
            fov: self.fov as int,
            aspect: self.aspect as int,
            near: self.near as int,
            far: self.far as int,
        }
    }

    /// where the eye starts
    pub fn pos(self, pos: Vec3) -> (r: Self)
        ensures
            r == (CameraBuilder { pos, ..self }),
    {
        CameraBuilder { pos, ..self }
    }

    /// length travelled per second
    pub fn move_speed(self, move_speed: i64) -> (r: Self)
        ensures
            r == (CameraBuilder { move_speed, ..self }),
    {
        CameraBuilder { move_speed, ..self }
    }

    /// degrees turned per second and pointer count
    pub fn mouse_speed(self, mouse_speed: i64) -> (r: Self)
        ensures
            r == (CameraBuilder { mouse_speed, ..self }),
    {
        CameraBuilder { mouse_speed, ..self }
    }

    /// pitch in degrees, [-89, 89]
    pub fn pitch(self, pitch: i64) -> (r: Self)
        ensures
            r == (CameraBuilder { pitch, ..self }),
    {
        CameraBuilder { pitch, ..self }
    }

    /// yaw in degrees, [0, 360)
    pub fn yaw(self, yaw: i64) -> (r: Self)
        ensures
            r == (CameraBuilder { yaw, ..self }),
    {
        CameraBuilder { yaw, ..self }
    }

    /// vertical field of view in radians, positive
    pub fn fov(self, fov: i64) -> (r: Self)
        ensures
            r == (CameraBuilder { fov, ..self }),
    {
        CameraBuilder { fov, ..self }
    }

    /// width over height, positive
    pub fn aspect(self, aspect: i64) -> (r: Self)
        ensures
            r == (CameraBuilder { aspect, ..self }),
    {
        CameraBuilder { aspect, ..self }
    }

    /// clipping planes, 0 < near < far
    pub fn clip(self, near: i64, far: i64) -> (r: Self)
        ensures
            r == (CameraBuilder { near, far, ..self }),
    {
        CameraBuilder { near, far, ..self }
    }

    /// Builds the camera that looks along `front`, or names the first fault
    /// of the configuration.
    ///
    /// `front` is the viewing direction that belongs to the configured yaw
    /// and pitch; the caller works it out, as it does for
    /// [`Camera::set_front`]. A configuration is at fault if its field of
    /// view is not positive, its aspect ratio is not positive, its clipping
    /// planes are not at `0 < near < far`, its pitch is beyond
    /// [`PITCH_LIMIT`], its yaw is not at least zero and less than a full
    /// turn, or `front` is not a unit vector or is parallel to up.
    pub fn build(self, front: Vec3) -> (r: Result<Camera, ConfigurationError>)
        ensures
            r is Ok <==> self.error(front@) is None,
            r matches Ok(camera) ==> camera@ == self.initial(front@) && camera@.wf(),
            r matches Err(e) ==> self.error(front@) == Some(e),
    {
        if !(self.fov > 0) {
            return Err(ConfigurationError::FieldOfView);
        }
        if !(self.aspect > 0) {
            return Err(ConfigurationError::AspectRatio);
        }
        if !(0 < self.near && self.near < self.far) {
            return Err(ConfigurationError::ClipPlanes);
        }
        if !(-PITCH_LIMIT <= self.pitch && self.pitch <= PITCH_LIMIT) {
            return Err(ConfigurationError::Pitch);
        }
        if !(0 <= self.yaw && self.yaw < FULL_TURN) {
            return Err(ConfigurationError::Yaw);
        }
        if !is_front_valid(front) {
            return Err(ConfigurationError::Front);
        }
        Ok(
            Camera {
                pos: self.pos,
                pitch: self.pitch,
                yaw: self.yaw,
                front,
                move_speed: self.move_speed,
                mouse_speed: self.mouse_speed,
                fov: self.fov,
                aspect: self.aspect,
                near: self.near,
                far: self.far,
            },
        )
    }
}

impl Default for CameraBuilder {
    fn default() -> (r: Self)
        ensures
            r == CameraBuilder::standard(),
    {
        CameraBuilder {
            pos: Vec3 { x: 0, y: 0, z: 3_000_000 },
            pitch: 0,
            yaw: 90_000_000,
            move_speed: 2_500_000,
            mouse_speed: 40_000_000,
            fov: 45_000_000,
            aspect: 1_600_000,
            near: 100_000,
            far: 100_000_000,
        }
    }
}

/// The initial viewing direction is a valid one.
pub proof fn lemma_initial_front_valid()
    ensures
        front_valid(initial_front()@),
{
    let f = initial_front()@;
    assert(f.dot(f) == UNIT * UNIT) by (nonlinear_arith)
        requires
            f.x == 0,
            f.y == 0,
            f.z == -UNIT,
    ;
    assert(f.cross(up()@).x == UNIT * UNIT) by (nonlinear_arith)
        requires
            f.y == 0,
            f.z == -UNIT,
            up()@.y == UNIT,
            up()@.z == 0,
            f.cross(up()@).x == f.y * up()@.z - f.z * up()@.y,
    ;
}

/// Whether `front` can be a viewing direction.
pub fn is_front_valid(front: Vec3) -> (b: bool)
    ensures
        b == front_valid(front@),
{
    let away: bool = front.x != 0 || front.z != 0;
    proof {
        let c = front@.cross(up()@);
        assert(c.x == -front.z * UNIT && c.y == 0 && c.z == front.x * UNIT) by (nonlinear_arith)
            requires
                c == front@.cross(up()@),
                up()@.x == 0,
                up()@.y == UNIT,
                up()@.z == 0,
        ;
    }
    front.is_unit() && away
}

/// The eye of the viewer.
#[derive(Debug)]
pub struct Camera {
    pos: Vec3,
    pitch: i64,
    yaw: i64,
    front: Vec3,
    move_speed: i64,
    mouse_speed: i64,
    fov: i64,
    aspect: i64,
    near: i64,
    far: i64,
}

impl View for Camera {
    type V = CameraView;

    closed spec fn view(&self) -> CameraView {
        CameraView {
            pos: self.pos@,
            pitch: self.pitch as int,
            yaw: self.yaw as int,
            front: self.front@,
            move_speed: self.move_speed as int,
            mouse_speed: self.mouse_speed as int,
            fov: self.fov as int,
            aspect: self.aspect as int,
            near: self.near as int,
            far: self.far as int,
        }
    }
}

/// `p` moved by `dist` along `dir`.
fn advance(p: Vec3, dir: Vec3, dist: i64) -> (r: Vec3)
    ensures
        r@ == advanced(p@, dir@, dist as int),
{
    Vec3 {
        x: add_saturating(p.x, mul_div(dir.x, dist, UNIT)),
        y: add_saturating(p.y, mul_div(dir.y, dist, UNIT)),
        z: add_saturating(p.z, mul_div(dir.z, dist, UNIT)),
    }
}

/// `p` moved by `dist` against `dir`.
fn retreat(p: Vec3, dir: Vec3, dist: i64) -> (r: Vec3)
    ensures
        r@ == retreated(p@, dir@, dist as int),
{
    Vec3 {
        x: sub_saturating(p.x, mul_div(dir.x, dist, UNIT)),
        y: sub_saturating(p.y, mul_div(dir.y, dist, UNIT)),
        z: sub_saturating(p.z, mul_div(dir.z, dist, UNIT)),
    }
}

/// The direction to the right of a unit vector `front`.
fn strafe_axis(front: Vec3) -> (r: Vec3)
    requires
        front@.is_unit(),
    ensures
        r@ == right_of(front@),
{
    proof {
        lemma_unit_within(front@);
    }
    front.cross(&up()).normalized()
}

impl Camera {
    /// What holds of every camera.
    #[verifier::type_invariant]
    spec fn inv(self) -> bool {
        self@.wf()
    }

    /// The camera of the standard configuration, looking along
    /// [`initial_front`].
    pub fn new() -> (camera: Self)
        ensures
            camera@ == CameraBuilder::standard().initial(initial_front()@),
            camera@.wf(),
    {
        proof {
            lemma_initial_front_valid();
        }
        CameraBuilder::default().build(initial_front()).unwrap()
    }

    /// Where the eye is.
    pub fn get_camera_pos(&self) -> (pos: Vec3)
        ensures
            pos@ == self@.pos,
    {
        self.pos
    }

    /// The pitch in degrees, always within [`PITCH_LIMIT`].
    pub fn pitch(&self) -> (pitch: i64)
        ensures
            pitch == self@.pitch,
            -PITCH_LIMIT <= pitch <= PITCH_LIMIT,
            self@.wf(),
    {
        proof {
            use_type_invariant(self);
        }
        self.pitch
    }

    /// The yaw in degrees.
    pub fn yaw(&self) -> (yaw: i64)
        ensures
            yaw == self@.yaw,
    {
        self.yaw
    }

    /// The direction in which the eye looks.
    pub fn front(&self) -> (front: Vec3)
        ensures
            front@ == self@.front,
            front_valid(front@),
    {
        proof {
            use_type_invariant(self);
        }
        self.front
    }

    /// Takes `front` as the viewing direction if it can be one, and says
    /// whether it did. After a rotation the caller hands in the direction
    /// that belongs to the new yaw and pitch.
    pub fn set_front(&mut self, front: Vec3) -> (accepted: bool)
        ensures
            accepted == front_valid(front@),
            accepted ==> final(self)@ == (CameraView { front: front@, ..old(self)@ }),
            !accepted ==> final(self)@ == old(self)@,
            final(self)@.wf(),
    {
        proof {
            use_type_invariant(&*self);
        }
        if is_front_valid(front) {
            self.front = front;
            true
        } else {
            false
        }
    }

    /// What the view and projection matrices are made from: the eye, the
    /// point one viewing direction ahead of it, up, and the lens.
    pub fn view_params(&self) -> (params: ViewParams)
        ensures
            params.eye@ == self@.pos,
            params.center@ == advanced(self@.pos, self@.front, UNIT as int),
            params.up == up(),
            params.fov == self@.fov,
            params.aspect == self@.aspect,
            params.near == self@.near,
            params.far == self@.far,
            params.fov > 0,
            params.aspect > 0,
            0 < params.near < params.far,
    {
        proof {
            use_type_invariant(self);
        }
        ViewParams {
            eye: self.pos,
            center: advance(self.pos, self.front, UNIT),
            up: up(),
            fov: self.fov,
            aspect: self.aspect,
            near: self.near,
            far: self.far,
        }
    }

    /// Over no time nothing moves: a movement applied for zero nanoseconds
    /// leaves the camera as it was. A rotation does so where the yaw is
    /// between zero and a full turn, both included; outside of that it
    /// still wraps the yaw.
    pub proof fn law_zero_elapsed(self, movement: CameraMovement)
        requires
            self@.wf(),
            movement is Rotate ==> 0 <= self@.yaw <= FULL_TURN,
        ensures
            self@.moved(0, movement) == self@,
    {
        let c = self@;
        lemma_scaled_zero(c.move_speed, NANOS_PER_SEC as int);
        lemma_scaled_zero(c.mouse_speed, NANOS_PER_SEC as int);
        let right = right_of(c.front);
        lemma_scaled_zero(c.front.x, UNIT as int);
        lemma_scaled_zero(c.front.y, UNIT as int);
        lemma_scaled_zero(c.front.z, UNIT as int);
        lemma_scaled_zero(right.x, UNIT as int);
        lemma_scaled_zero(right.y, UNIT as int);
        lemma_scaled_zero(right.z, UNIT as int);
        lemma_scaled_zero(up()@.x, UNIT as int);
        lemma_scaled_zero(up()@.y, UNIT as int);
        lemma_scaled_zero(up()@.z, UNIT as int);
        match movement {
            CameraMovement::Rotate(dx, dy) => {
                lemma_scaled_zero(dx as int, UNIT as int);
                lemma_scaled_zero(dy as int, UNIT as int);
            },
            _ => {},
        }
    }

    /// Applies `movement` for `delta_time` nanoseconds.
    ///
    /// A straight move carries the position by speed times time: along the
    /// viewing direction, along the direction to its right, or along up. A
    /// rotation turns by pointer travel times sensitivity times time: the
    /// pitch is clamped to its limit and the yaw is wrapped once. The
    /// viewing direction is left as it is; after a rotation the caller
    /// hands the direction that belongs to the new angles to
    /// [`Camera::set_front`].
    ///
    /// The pitch stays within its limit whatever is applied. A rotation
    /// leaves the yaw at least zero and less than a full turn exactly when
    /// [`yaw_lands_within_turn`] holds of the yaw less the turn; and a yaw
    /// between zero and a full turn, both included, stays there under every
    /// turn of at most a full turn. Over no time nothing changes, except
    /// that a rotation still wraps a yaw that lies outside zero to a full
    /// turn.
    pub fn update(&mut self, delta_time: u64, movement: CameraMovement)
        ensures
            final(self)@ == old(self)@.moved(delta_time as int, movement),
            final(self)@.wf(),
            -PITCH_LIMIT <= final(self)@.pitch <= PITCH_LIMIT,
            movement matches CameraMovement::Rotate(dx, _) ==> (0 <= final(self)@.yaw < FULL_TURN
                <==> yaw_lands_within_turn(
                old(self)@.yaw - old(self)@.turn(delta_time as int, dx as int),
            )),
            movement matches CameraMovement::Rotate(dx, _) && 0 <= old(self)@.yaw <= FULL_TURN
                && -FULL_TURN <= old(self)@.turn(delta_time as int, dx as int) <= FULL_TURN ==> 0
                <= final(self)@.yaw <= FULL_TURN,
            delta_time == 0 && (movement is Rotate ==> 0 <= old(self)@.yaw <= FULL_TURN)
                ==> final(self)@ == old(self)@,
    {
        proof {
            use_type_invariant(&*self);
            if delta_time == 0 && (movement is Rotate ==> 0 <= self.yaw <= FULL_TURN) {
                self.law_zero_elapsed(movement);
            }
        }
        let stride: i64 = mul_div_unsigned(self.move_speed, delta_time, NANOS_PER_SEC);
        match movement {
            CameraMovement::Forward => {
                self.pos = advance(self.pos, self.front, stride);
            },
            CameraMovement::Backward => {
                self.pos = retreat(self.pos, self.front, stride);
            },
            CameraMovement::Left => {
                self.pos = retreat(self.pos, strafe_axis(self.front), stride);
            },
            CameraMovement::Right => {
                self.pos = advance(self.pos, strafe_axis(self.front), stride);
            },
            CameraMovement::Up => {
                self.pos = advance(self.pos, up(), stride);
            },
            CameraMovement::Down => {
                self.pos = retreat(self.pos, up(), stride);
            },
            CameraMovement::Rotate(dx, dy) => {
                let gain: i64 = mul_div_unsigned(self.mouse_speed, delta_time, NANOS_PER_SEC);
                let x: i64 = mul_div(dx, gain, UNIT);
                let y: i64 = mul_div(dy, gain, UNIT);
                self.pitch = pitch_after(self.pitch, y);
                self.yaw = yaw_after(self.yaw, x);
            },
        }
    }

    /// Applies each of `movements` in turn, each for `delta_time`
    /// nanoseconds.
    pub fn update_each(&mut self, delta_time: u64, movements: &Vec<CameraMovement>)
        ensures
            final(self)@ == old(self)@.moved_each(delta_time as int, movements@),
            final(self)@.wf(),
    {
        proof {
            use_type_invariant(&*self);
        }
        let mut i: usize = 0;
        while i < movements.len()
            invariant
                i <= movements.len(),
                self@ == old(self)@.moved_each(delta_time as int, movements@.take(i as int)),
                self@.wf(),
            decreases movements.len() - i,
        {
            proof {
                let done = movements@.take(i + 1);
                assert(done.drop_last() == movements@.take(i as int));
                assert(done.last() == movements@[i as int]);
            }
            self.update(delta_time, movements[i]);
            i += 1;
        }
        proof {
            assert(movements@.take(i as int) == movements@);
        }
    }
}

/// The pitch `pitch` less `y`, clamped to the pitch range.
fn pitch_after(pitch: i64, y: i64) -> (r: i64)
    ensures
        r == clamp_pitch(pitch - y),
{
    let target: i128 = pitch as i128 - y as i128;
    if target > PITCH_LIMIT as i128 {
        PITCH_LIMIT
    } else if target < -(PITCH_LIMIT as i128) {
        -PITCH_LIMIT
    } else {
        target as i64
    }
}

/// The yaw `yaw` less `x`, wrapped once.
fn yaw_after(yaw: i64, x: i64) -> (r: i64)
    ensures
        r == clamp64(wrap_yaw(yaw - x)),
{
    let target: i128 = yaw as i128 - x as i128;
    if target > FULL_TURN as i128 {
        saturate(target - FULL_TURN as i128)
    } else if target < 0 {
        saturate(target + FULL_TURN as i128)
    } else {
        saturate(target)
    }
}

} // verus!
