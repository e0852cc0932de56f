//! Actors, the camera, and the sprite game objects with their movement rules.
//!
//! Positions and velocities are advanced by the caller, who does the
//! arithmetic; the rules here decide what becomes of the result: where an
//! object lands, when it turns round, which state it enters and which frame of
//! its animation it shows.

use vstd::prelude::*;

use crate::kb_assets::{KbModelHandle, INVALID_HANDLE_INDEX};
use crate::kb_utils::{
    cg_quat_ident, cg_quat_ident_value, cg_vec3_one, cg_vec3_one_value, cg_vec3_zero,
    cg_vec3_zero_value, CgQuat, CgVec3, CgVec4, KbFloat, ZERO_BITS,
};

verus! {

/// Handle of a particle actor.
#[derive(Clone, Copy, Debug, PartialEq, Eq, Structural, Hash)]
pub struct KbParticleHandle {
    pub index: u32,
}

/// The index of the handle that no particle actor has.
pub const INVALID_PARTICLE_INDEX: u32 = 0xffff_ffff;

/// The handle that no particle actor has.
pub fn invalid_particle_handle() -> (r: KbParticleHandle)
    ensures
        r.index == INVALID_PARTICLE_INDEX,
{
    KbParticleHandle { index: INVALID_PARTICLE_INDEX }
}

/// A particle in flight: where it is, how it moves, its colour, how long it
/// lives and when it was born, both in seconds on the clock of its actor.
#[derive(Clone, Copy, Debug, PartialEq, Eq, Structural)]
pub struct KbParticle {
    pub position: CgVec3,
    pub acceleration: CgVec3,
    pub velocity: CgVec3,
    pub color: CgVec4,
    pub life_time: KbFloat,
    pub start_time: KbFloat,
}

/// A particle is due when the time of the next particle has passed.
pub fn particle_is_due(elapsed: KbFloat, next_spawn_time: KbFloat) -> (r: bool)
    ensures
        r == next_spawn_time.less(elapsed),
{
    elapsed.gt(next_spawn_time)
}

/// The particles that stay in flight at `elapsed`, in their order: those whose
/// end, given in `ends` at the place of the particle, is not before `elapsed`.
pub open spec fn kept(particles: Seq<KbParticle>, ends: Seq<KbFloat>, elapsed: KbFloat) -> Seq<
    KbParticle,
>
    decreases particles.len(),
{
    if particles.len() == 0 {
        Seq::empty()
    } else {
        let before = kept(particles.drop_last(), ends.drop_last(), elapsed);
        if ends.last().less(elapsed) {
            before
        } else {
            before.push(particles.last())
        }
    }
}

/// No particle is made by retiring, and where no end is before `elapsed`,
/// all stay.
pub proof fn lemma_kept(particles: Seq<KbParticle>, ends: Seq<KbFloat>, elapsed: KbFloat)
    requires
        ends.len() == particles.len(),
    ensures
        kept(particles, ends, elapsed).len() <= particles.len(),
        (forall|i: int| 0 <= i < ends.len() ==> !(#[trigger] ends[i]).less(elapsed)) ==> kept(
            particles,
            ends,
            elapsed,
        ) == particles,
        forall|k: int|
            0 <= k < kept(particles, ends, elapsed).len() ==> particles.contains(
                #[trigger] kept(particles, ends, elapsed)[k],
            ),
    decreases particles.len(),
{
    if particles.len() > 0 {
        let n = particles.len() - 1;
        lemma_kept(particles.drop_last(), ends.drop_last(), elapsed);
        let before = kept(particles.drop_last(), ends.drop_last(), elapsed);
        if forall|i: int| 0 <= i < ends.len() ==> !(#[trigger] ends[i]).less(elapsed) {
            assert forall|i: int| 0 <= i < ends.drop_last().len() implies !(
            #[trigger] ends.drop_last()[i]).less(elapsed) by {
                assert(ends.drop_last()[i] == ends[i]);
            }
            assert(!ends[n].less(elapsed));
            assert(before.push(particles.last()) =~= particles);
        }
        assert forall|k: int| 0 <= k < kept(particles, ends, elapsed).len() implies particles.contains(
            #[trigger] kept(particles, ends, elapsed)[k],
        ) by {
            if k < before.len() {
                let j = choose|j: int|
                    0 <= j < particles.drop_last().len() && particles.drop_last()[j] == before[k];
                assert(particles[j] == before[k]);
            } else {
                assert(particles[n] == particles.last());
            }
        }
    }
}

/// Retires the particles whose end is before `elapsed`; the others stay, in
/// their order. `ends` holds the end of each particle, which the caller adds
/// up from its birth and its life time.
pub fn retire_particles(particles: &mut Vec<KbParticle>, elapsed: KbFloat, ends: &Vec<KbFloat>)
    requires
        ends@.len() == old(particles)@.len(),
    ensures
        final(particles)@ == kept(old(particles)@, ends@, elapsed),
{
    let mut out: Vec<KbParticle> = Vec::new();
    let mut i: usize = 0;
    while i < particles.len()
        invariant
            i <= particles@.len(),
            particles@ == old(particles)@,
            ends@.len() == particles@.len(),
            out@ == kept(particles@.take(i as int), ends@.take(i as int), elapsed),
        decreases particles@.len() - i,
    {
        proof {
            let next_particles = particles@.take(i as int + 1);
            let next_ends = ends@.take(i as int + 1);
            assert(next_particles.drop_last() =~= particles@.take(i as int));
            assert(next_ends.drop_last() =~= ends@.take(i as int));
            assert(next_particles.last() == particles@[i as int]);
            assert(next_ends.last() == ends@[i as int]);
        }
        if !ends[i].lt(elapsed) {
            out.push(particles[i]);
        }
        i = i + 1;
    }
    proof {
        assert(particles@.take(i as int) =~= particles@);
        assert(ends@.take(i as int) =~= ends@);
    }
    *particles = out;
}

/// Where an actor stands, how it is turned and how large it is.
#[derive(Clone, Copy, Debug, PartialEq, Eq, Structural)]
pub struct KbActorTransform {
    pub position: CgVec3,
    pub rotation: CgQuat,
    pub scale: CgVec3,
}

impl KbActorTransform {
    pub fn new(position: CgVec3, rotation: CgQuat, scale: CgVec3) -> (r: KbActorTransform)
        ensures
            r == (KbActorTransform { position, rotation, scale }),
    {
        KbActorTransform { position, rotation, scale }
    }

    /// At `position`, not turned, at its natural size.
    pub fn from_position(position: CgVec3) -> (r: KbActorTransform)
        ensures
            r == (KbActorTransform {
                position,
                rotation: cg_quat_ident_value(),
                scale: cg_vec3_one_value(),
            }),
    {
        KbActorTransform { position, rotation: cg_quat_ident(), scale: cg_vec3_one() }
    }

    /// At `position`, not turned, at its natural size.
    pub fn from_position_scale(position: CgVec3) -> (r: KbActorTransform)
        ensures
            r == (KbActorTransform {
                position,
                rotation: cg_quat_ident_value(),
                scale: cg_vec3_one_value(),
            }),
    {
        KbActorTransform { position, rotation: cg_quat_ident(), scale: cg_vec3_one() }
    }
}

/// A thing in the 3D world: where it is, how large, and which model draws it.
#[derive(Clone, Copy, Debug)]
pub struct KbActor {
    pub id: u32,
    position: CgVec3,
    scale: CgVec3,
    model_handle: KbModelHandle,
}

impl KbActor {
    /// The value of the field `id`.
    pub closed spec fn ident(&self) -> u32 {
        self.id
    }

    pub closed spec fn position(&self) -> CgVec3 {
        self.position
    }

    pub closed spec fn scale(&self) -> CgVec3 {
        self.scale
    }

    pub closed spec fn model(&self) -> KbModelHandle {
        self.model_handle
    }

    /// A new actor at the origin, of size zero, without a model. Its id is
    /// the number after `last_actor_id`, which is advanced to it.
    pub fn new(last_actor_id: &mut u32) -> (r: Self)
        requires
            *old(last_actor_id) < u32::MAX,
        ensures
            *final(last_actor_id) == *old(last_actor_id) + 1,
            r.ident() == *final(last_actor_id),
            r.position() == cg_vec3_zero_value(),
            r.scale() == cg_vec3_zero_value(),
            r.model().index == INVALID_HANDLE_INDEX,
    {
        *last_actor_id = *last_actor_id + 1;
        KbActor {
            id: *last_actor_id,
            position: cg_vec3_zero(),
            scale: cg_vec3_zero(),
            model_handle: KbModelHandle::make_invalid(),
        }
    }

    /// The id of the actor.
    pub fn get_id(&self) -> (r: u32)
        ensures
            r == self.ident(),
    {
        self.id
    }

    pub fn set_position(&mut self, position: &CgVec3)
        ensures
            final(self).position() == *position,
            final(self).ident() == old(self).ident(),
            final(self).scale() == old(self).scale(),
            final(self).model() == old(self).model(),
    {
        self.position = *position;
    }

    pub fn get_position(&self) -> (r: CgVec3)
        ensures
            r == self.position(),
    {
        self.position
    }

    pub fn set_scale(&mut self, scale: &CgVec3)
        ensures
            final(self).scale() == *scale,
            final(self).ident() == old(self).ident(),
            final(self).position() == old(self).position(),
            final(self).model() == old(self).model(),
    {
        self.scale = *scale;
    }

    pub fn get_scale(&self) -> (r: CgVec3)
        ensures
            r == self.scale(),
    {
        self.scale
    }

    pub fn set_model(&mut self, new_model: &KbModelHandle)
        ensures
            final(self).model() == *new_model,
            final(self).ident() == old(self).ident(),
            final(self).position() == old(self).position(),
            final(self).scale() == old(self).scale(),
    {
        self.model_handle = *new_model;
    }

    pub fn get_model(&self) -> (r: KbModelHandle)
        ensures
            r == self.model(),
    {
        self.model_handle
    }
}

/// The eye through which the 3D world is seen.
#[derive(Clone, Copy, Debug)]
pub struct KbCamera {
    position: CgVec3,
    rotation: CgQuat,
}

impl KbCamera {
    pub closed spec fn position(&self) -> CgVec3 {
        self.position
    }

    pub closed spec fn rotation(&self) -> CgQuat {
        self.rotation
    }

    /// A camera at the origin that is not turned.
    pub fn new() -> (r: Self)
        ensures
            r.position() == cg_vec3_zero_value(),
            r.rotation() == cg_quat_ident_value(),
    {
        KbCamera { position: cg_vec3_zero(), rotation: cg_quat_ident() }
    }

    pub fn set_position(&mut self, new_pos: &CgVec3)
        ensures
            final(self).position() == *new_pos,
            final(self).rotation() == old(self).rotation(),
    {
        self.position = *new_pos;
    }

    pub fn get_position(&self) -> (r: CgVec3)
        ensures
            r == self.position(),
    {
        self.position
    }

    pub fn set_rotation(&mut self, new_rot: &CgQuat)
        ensures
            final(self).rotation() == *new_rot,
            final(self).position() == old(self).position(),
    {
        self.rotation = *new_rot;
    }

    pub fn get_rotation(&self) -> (r: CgQuat)
        ensures
            r == self.rotation(),
    {
        self.rotation
    }

    /// Moves the camera to `new_pos` and turns it as `look_rotation` says,
    /// the rotation that the caller computed for the line from the camera to
    /// its target.
    pub fn set_look_at(&mut self, new_pos: &CgVec3, look_rotation: &CgQuat)
        ensures
            final(self).position() == *new_pos,
            final(self).rotation() == *look_rotation,
    {
        self.set_position(new_pos);
        self.set_rotation(look_rotation);
    }
}

/// What a sprite game object is; its movement rules go by this.
#[derive(Clone, Copy, Debug, PartialEq, Eq, Structural)]
pub enum GameObjectType {
    Character,
    Robot,
    Projectile,
    Background,
    Skybox,
    Cloud,
}

/// What a sprite game object is doing.
#[derive(Clone, Copy, Debug, PartialEq, Eq, Structural)]
pub enum GameObjectState {
    Idle,
    Jumping,
    Running,
}

/// Bit pattern of 0.0001: a sideways push below it counts as none.
pub const STILL_BITS: u32 = 0x38d1_b717;

/// Bit pattern of 0.001: a gravity scale below it counts as none.
pub const WEIGHTLESS_BITS: u32 = 0x3a83_126f;

/// Bit pattern of 2.1: the upward speed of a jump, and the distance from the
/// middle at which a cloud leaves the screen.
pub const FAR_BITS: u32 = 0x4006_6666;

/// Bit pattern of -2.1.
pub const MINUS_FAR_BITS: u32 = 0xc006_6666;

/// Bit pattern of 1.9: the distance from the middle at which characters stop
/// and robots turn round.
pub const EDGE_BITS: u32 = 0x3ff3_3333;

/// Bit pattern of -1.9.
pub const MINUS_EDGE_BITS: u32 = 0xbff3_3333;

/// Bit pattern of 3.1: the gravity scale of a new object.
pub const NEW_GRAVITY_BITS: u32 = 0x4046_6666;

/// Bit pattern of 5: animation frames per second of a running object.
pub const RUNNING_RATE_BITS: u32 = 0x40a0_0000;

/// Bit pattern of 15: animation frames per second of a projectile.
pub const PROJECTILE_RATE_BITS: u32 = 0x4170_0000;

/// Bit pattern of 1.2: animation frames per second of the sky box.
pub const SKYBOX_RATE_BITS: u32 = 0x3f99_999a;

/// A sprite of the 2D game: where it is, how it moves, what it is doing and
/// which frame of which sprite shows it.
#[derive(Clone, Copy, Debug)]
pub struct GameObject {
    pub position: CgVec3,
    pub direction: CgVec3,
    pub scale: CgVec3,
    pub velocity: CgVec3,
    pub object_type: GameObjectType,
    pub object_state: GameObjectState,
    pub next_attack_time: KbFloat,
    pub texture_index: i32,
    pub sprite_index: i32,
    pub anim_frame: i32,
    pub life_start_time: instant::Instant,
    pub state_start_time: instant::Instant,
    pub gravity_scale: KbFloat,
    pub is_enemy: bool,
    pub random_val: KbFloat,
}

/// The remainder of `ticks` by `n` with the sign of `ticks`.
pub open spec fn frame_rem_value(ticks: int, n: int) -> int {
    if ticks >= 0 {
        ticks % n
    } else {
        -((-ticks) % n)
    }
}

/// The remainder of `ticks` by `n`, with the sign of `ticks`.
pub fn frame_rem(ticks: i32, n: i32) -> (r: i32)
    requires
        n > 0,
    ensures
        r == frame_rem_value(ticks as int, n as int),
        -n < r < n,
{
    let wide: i64 = ticks as i64;
    let modulus: u64 = n as u64;
    if wide >= 0 {
        ((wide as u64) % modulus) as i32
    } else {
        -((((-wide) as u64) % modulus) as i32)
    }
}

/// A speed turned round. What is not a number stays as it is.
pub open spec fn turned_round(v: KbFloat) -> KbFloat {
    if v.nan() {
        v
    } else {
        v.negated()
    }
}

/// Computes [`turned_round`].
pub fn turn_round(v: KbFloat) -> (r: KbFloat)
    ensures
        r == turned_round(v),
{
    if v.is_nan() {
        v
    } else {
        v.neg()
    }
}

impl GameObject {
    /// True when the object is pushed sideways by less than 0.0001.
    pub open spec fn is_still_push(move_vec: CgVec3) -> bool {
        move_vec.x.abs_value().less(KbFloat { bits: STILL_BITS })
    }

    /// True when a call of `set_velocity` with `move_vec` starts a jump: the
    /// object is a character that is not jumping and is pushed upwards.
    pub open spec fn jump_starts(self, move_vec: CgVec3) -> bool {
        &&& self.object_type == GameObjectType::Character
        &&& self.object_state != GameObjectState::Jumping
        &&& (KbFloat { bits: ZERO_BITS }).less(move_vec.y)
    }

    /// The state after a call of `set_velocity` with `move_vec`. Only a
    /// character changes state, and a jumping one stays jumping; otherwise a
    /// push upwards makes it jump, no push sideways makes it idle, and any
    /// other push makes it run.
    pub open spec fn state_after_push(self, move_vec: CgVec3) -> GameObjectState {
        if self.object_type != GameObjectType::Character {
            self.object_state
        } else if self.object_state == GameObjectState::Jumping {
            GameObjectState::Jumping
        } else if (KbFloat { bits: ZERO_BITS }).less(move_vec.y) {
            GameObjectState::Jumping
        } else if Self::is_still_push(move_vec) {
            GameObjectState::Idle
        } else {
            GameObjectState::Running
        }
    }

    /// True when a call of `set_velocity` with `move_vec` restarts the clock
    /// of the state: the object is a character that is not jumping, and it
    /// either enters a state or is told to stand still.
    pub open spec fn push_restarts_clock(self, move_vec: CgVec3) -> bool {
        &&& self.object_type == GameObjectType::Character
        &&& self.object_state != GameObjectState::Jumping
        &&& (Self::is_still_push(move_vec) || self.object_state != GameObjectState::Running || (
        KbFloat { bits: ZERO_BITS }).less(move_vec.y))
    }

    /// The object after a call of `set_velocity` at time `now`.
    pub open spec fn pushed(self, move_vec: CgVec3, now: instant::Instant) -> GameObject {
        GameObject {
            velocity: CgVec3 {
                x: move_vec.x,
                y: if self.jump_starts(move_vec) {
                    KbFloat { bits: FAR_BITS }
                } else {
                    self.velocity.y
                },
                z: self.velocity.z,
            },
            object_state: self.state_after_push(move_vec),
            state_start_time: if self.push_restarts_clock(move_vec) {
                now
            } else {
                self.state_start_time
            },
            ..self
        }
    }

    /// True when gravity acts on the object.
    pub open spec fn has_weight(self) -> bool {
        (KbFloat { bits: WEIGHTLESS_BITS }).less(self.gravity_scale.abs_value())
    }

    /// The object after the first half of a step, at time `now`: it is at
    /// `moved_position`; if gravity acts on it and it is above the ground, it
    /// falls at `fallen_velocity_y`; if it is below the ground, it is put on
    /// the ground, stops falling and becomes idle.
    pub open spec fn moved(
        self,
        moved_position: CgVec3,
        fallen_velocity_y: KbFloat,
        now: instant::Instant,
    ) -> GameObject {
        let zero = KbFloat { bits: ZERO_BITS };
        if self.has_weight() && zero.less(moved_position.y) {
            GameObject {
                position: moved_position,
                velocity: CgVec3 { y: fallen_velocity_y, ..self.velocity },
                ..self
            }
        } else if self.has_weight() && moved_position.y.less(zero) {
            GameObject {
                position: CgVec3 { y: zero, ..moved_position },
                velocity: CgVec3 { y: zero, ..self.velocity },
                object_state: GameObjectState::Idle,
                state_start_time: now,
                ..self
            }
        } else {
            GameObject { position: moved_position, ..self }
        }
    }

    /// The number of animation frames per second, for an object that is
    /// animated by the clock of its state.
    pub open spec fn frame_rate(self) -> Option<KbFloat> {
        match self.object_type {
            GameObjectType::Projectile => Some(KbFloat { bits: PROJECTILE_RATE_BITS }),
            GameObjectType::Skybox => Some(KbFloat { bits: SKYBOX_RATE_BITS }),
            _ => if self.object_state == GameObjectState::Running {
                Some(KbFloat { bits: RUNNING_RATE_BITS })
            } else {
                None
            },
        }
    }

    /// The animation frame after `ticks` frames on the clock of the state.
    /// A projectile cycles through 3 frames and the sky box through 2; any
    /// other object cycles through frames 1 to 4 while it runs and shows
    /// frame 0 while it does not.
    pub open spec fn frame_at(self, ticks: i32) -> int {
        match self.object_type {
            GameObjectType::Projectile => frame_rem_value(ticks as int, 3),
            GameObjectType::Skybox => frame_rem_value(ticks as int, 2),
            _ => if self.object_state == GameObjectState::Running {
                1 + frame_rem_value(ticks as int, 4)
            } else {
                0
            },
        }
    }

    /// The sideways position after the second half of a step. A cloud that
    /// drifts off one side of the screen comes back on the other; a
    /// character stops at the edge.
    pub open spec fn kept_x(self) -> KbFloat {
        let zero = KbFloat { bits: ZERO_BITS };
        let far = KbFloat { bits: FAR_BITS };
        let minus_far = KbFloat { bits: MINUS_FAR_BITS };
        let edge = KbFloat { bits: EDGE_BITS };
        let minus_edge = KbFloat { bits: MINUS_EDGE_BITS };
        let x = self.position.x;
        match self.object_type {
            GameObjectType::Cloud => if zero.less(self.velocity.x) {
                if far.less(x) {
                    minus_far
                } else {
                    x
                }
            } else {
                if x.less(minus_far) {
                    far
                } else {
                    x
                }
            },
            GameObjectType::Character => if edge.less(x) {
                edge
            } else if x.less(minus_edge) {
                minus_edge
            } else {
                x
            },
            _ => x,
        }
    }

    /// The sideways speed after the second half of a step. A robot that has
    /// passed the edge it walks towards turns round.
    pub open spec fn kept_speed_x(self) -> KbFloat {
        let zero = KbFloat { bits: ZERO_BITS };
        let edge = KbFloat { bits: EDGE_BITS };
        let minus_edge = KbFloat { bits: MINUS_EDGE_BITS };
        let v = self.velocity.x;
        match self.object_type {
            GameObjectType::Robot => if zero.less(v) {
                if edge.less(self.position.x) {
                    turned_round(v)
                } else {
                    v
                }
            } else {
                if self.position.x.less(minus_edge) {
                    turned_round(v)
                } else {
                    v
                }
            },
            _ => v,
        }
    }

    /// The object after the second half of a step, `ticks` animation frames
    /// into its state.
    pub open spec fn settled(self, ticks: i32) -> GameObject {
        GameObject {
            position: CgVec3 { x: self.kept_x(), ..self.position },
            velocity: CgVec3 { x: self.kept_speed_x(), ..self.velocity },
            anim_frame: self.frame_at(ticks) as i32,
            ..self
        }
    }

    /// A new idle object that stands still, born at `now`.
    pub fn new(
        object_type: GameObjectType,
        sprite_index: i32,
        position: CgVec3,
        direction: CgVec3,
        scale: CgVec3,
        now: instant::Instant,
        random_val: KbFloat,
    ) -> (r: Self)
        ensures
            r == (GameObject {
                position,
                direction,
                scale,
                velocity: cg_vec3_zero_value(),
                object_type,
                object_state: GameObjectState::Idle,
                next_attack_time: KbFloat { bits: ZERO_BITS },
                texture_index: 0,
                sprite_index,
                anim_frame: 0,
                life_start_time: now,
                state_start_time: now,
                gravity_scale: KbFloat { bits: NEW_GRAVITY_BITS },
                is_enemy: false,
                random_val,
            }),
    {
        GameObject {
            position,
            direction,
            scale,
            velocity: cg_vec3_zero(),
            object_type,
            object_state: GameObjectState::Idle,
            next_attack_time: KbFloat::zero(),
            texture_index: 0,
            sprite_index,
            anim_frame: 0,
            life_start_time: now,
            state_start_time: now,
            gravity_scale: KbFloat { bits: NEW_GRAVITY_BITS },
            is_enemy: false,
            random_val,
        }
    }

    /// Enters `next_state` at time `now`.
    pub fn set_state(&mut self, next_state: GameObjectState, now: instant::Instant)
        ensures
            *final(self) == (GameObject {
                object_state: next_state,
                state_start_time: now,
                ..*old(self)
            }),
    {
        self.object_state = next_state;
        self.state_start_time = now;
    }

    /// Pushes the object: sideways at the speed `move_vec.x`, and into a jump
    /// when `move_vec.y` is positive. See [`GameObject::pushed`].
    pub fn set_velocity(&mut self, move_vec: CgVec3, now: instant::Instant)
        ensures
            *final(self) == old(self).pushed(move_vec, now),
    {
        self.velocity.x = move_vec.x;
        if !matches!(self.object_type, GameObjectType::Character) {
            return ;
        }
        let is_jumping = matches!(self.object_state, GameObjectState::Jumping);
        if move_vec.x.abs().lt(KbFloat { bits: STILL_BITS }) {
            if !is_jumping {
                self.set_state(GameObjectState::Idle, now);
            }
        } else if !matches!(self.object_state, GameObjectState::Running) {
            if !is_jumping {
                self.set_state(GameObjectState::Running, now);
            }
        }
        if move_vec.y.gt(KbFloat::zero()) && !matches!(self.object_state, GameObjectState::Jumping) {
            self.velocity.y = KbFloat { bits: FAR_BITS };
            self.set_state(GameObjectState::Jumping, now);
        }
    }

    /// Tries to attack at `cur_time`, the seconds that the object has lived.
    /// The attack is refused while `cur_time` is before the time that the last
    /// attack set; otherwise it starts, and the next one may start at
    /// `rearm_time`, which the caller sets a tenth of a second after
    /// `cur_time`.
    pub fn start_attack(&mut self, cur_time: KbFloat, rearm_time: KbFloat) -> (r: bool)
        ensures
            r == !cur_time.less(old(self).next_attack_time),
            *final(self) == (GameObject {
                next_attack_time: if r {
                    rearm_time
                } else {
                    old(self).next_attack_time
                },
                ..*old(self)
            }),
    {
        if self.next_attack_time.gt(cur_time) {
            return false;
        }
        self.next_attack_time = rearm_time;
        true
    }

    /// The first half of a step. The caller has advanced the position by the
    /// velocity to `moved_position`, and has slowed the upward speed by
    /// gravity to `fallen_velocity_y`. See [`GameObject::moved`].
    pub fn begin_movement(
        &mut self,
        moved_position: CgVec3,
        fallen_velocity_y: KbFloat,
        now: instant::Instant,
    )
        ensures
            *final(self) == old(self).moved(moved_position, fallen_velocity_y, now),
    {
        self.position = moved_position;
        if self.gravity_scale.abs().gt(KbFloat { bits: WEIGHTLESS_BITS }) {
            if self.position.y.gt(KbFloat::zero()) {
                self.velocity.y = fallen_velocity_y;
            } else if self.position.y.lt(KbFloat::zero()) {
                self.velocity.y = KbFloat::zero();
                self.position.y = KbFloat::zero();
                self.set_state(GameObjectState::Idle, now);
            }
        }
    }

    /// The rate at which the caller turns the seconds on the clock of the
    /// state into animation frames, or `None` for an object whose frame does
    /// not go by that clock.
    pub fn animation_rate(&self) -> (r: Option<KbFloat>)
        ensures
            r == self.frame_rate(),
    {
        match self.object_type {
            GameObjectType::Projectile => Some(KbFloat { bits: PROJECTILE_RATE_BITS }),
            GameObjectType::Skybox => Some(KbFloat { bits: SKYBOX_RATE_BITS }),
            _ => {
                if matches!(self.object_state, GameObjectState::Running) {
                    Some(KbFloat { bits: RUNNING_RATE_BITS })
                } else {
                    None
                }
            },
        }
    }

    /// The second half of a step: picks the animation frame for `ticks`, the
    /// whole frames that have passed on the clock of the state, and keeps the
    /// object on the screen. See [`GameObject::settled`].
    pub fn finish_movement(&mut self, ticks: i32)
        ensures
            *final(self) == old(self).settled(ticks),
    {
        match self.object_state {
            GameObjectState::Running => {
                self.anim_frame = 1 + frame_rem(ticks, 4);
            },
            _ => {
                self.anim_frame = 0;
            },
        }
        let zero = KbFloat::zero();
        match self.object_type {
            GameObjectType::Projectile => {
                self.anim_frame = frame_rem(ticks, 3);
            },
            GameObjectType::Skybox => {
                self.anim_frame = frame_rem(ticks, 2);
            },
            GameObjectType::Cloud => {
                if self.velocity.x.gt(zero) {
                    if self.position.x.gt(KbFloat { bits: FAR_BITS }) {
                        self.position.x = KbFloat { bits: MINUS_FAR_BITS };
                    }
                } else {
                    if self.position.x.lt(KbFloat { bits: MINUS_FAR_BITS }) {
                        self.position.x = KbFloat { bits: FAR_BITS };
                    }
                }
            },
            GameObjectType::Robot => {
                if self.velocity.x.gt(zero) {
                    if self.position.x.gt(KbFloat { bits: EDGE_BITS }) {
                        self.velocity.x = self.velocity.x.neg();
                    }
                } else {
                    if self.position.x.lt(KbFloat { bits: MINUS_EDGE_BITS }) {
                        self.velocity.x = turn_round(self.velocity.x);
                    }
                }
            },
            GameObjectType::Character => {
                if self.position.x.gt(KbFloat { bits: EDGE_BITS }) {
                    self.position.x = KbFloat { bits: EDGE_BITS };
                } else if self.position.x.lt(KbFloat { bits: MINUS_EDGE_BITS }) {
                    self.position.x = KbFloat { bits: MINUS_EDGE_BITS };
                }
            },
            _ => (),
        }
    }
}

} // verus!
