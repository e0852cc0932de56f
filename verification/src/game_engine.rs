//! The rules of the 2D game: when an enemy appears, what a projectile hits,
//! and what the player's keys do.

use vstd::prelude::*;

use crate::kb_config::KbConfig;
use crate::kb_game_object::{turn_round, turned_round, GameObject, GameObjectState, GameObjectType};
use crate::kb_utils::{kb_random_u32, CgVec3, KbFloat, ONE_BITS, ZERO_BITS};

verus! {

/// Something that is loaded under a name.
pub trait GameAsset {
    spec fn name_value(&self) -> Seq<char>;

    fn asset_name(&self) -> (r: &String)
        ensures
            r@ == self.name_value(),
    ;
}

/// A texture of the 2D game, known by its name.
pub struct GameTexture {
    pub name: String,
}

impl GameAsset for GameTexture {
    open spec fn name_value(&self) -> Seq<char> {
        self.name@
    }

    fn asset_name(&self) -> (r: &String) {
        &self.name
    }
}

/// The assets of the 2D game.
pub struct AssetManager {
    resources: Vec<Box<dyn GameAsset>>,
}

impl Default for AssetManager {
    /// A manager that holds nothing.
    fn default() -> (r: Self)
        ensures
            r.count() == 0,
    {
        AssetManager { resources: Vec::new() }
    }
}

impl AssetManager {
    /// The number of assets held.
    pub closed spec fn count(&self) -> nat {
        self.resources@.len()
    }

    /// A manager that holds nothing.
    pub fn new() -> (r: Self)
        ensures
            r.count() == 0,
    {
        Default::default()
    }

    /// Loading by name is not offered yet: the call does nothing.
    pub fn load_asset(_asset_name: String) {
    }
}

/// The keys that are held down.
#[derive(Clone, Copy, Debug, PartialEq, Eq, Structural)]
pub struct InputManager {
    pub left: bool,
    pub right: bool,
    pub up_pressed: bool,
    pub fire: bool,
}

impl InputManager {
    /// No key is held down.
    pub fn new() -> (r: Self)
        ensures
            r == (InputManager { left: false, right: false, up_pressed: false, fire: false }),
    {
        InputManager { left: false, right: false, up_pressed: false, fire: false }
    }

    pub fn left_pressed(&self) -> (r: bool)
        ensures
            r == self.left,
    {
        self.left
    }

    pub fn right_pressed(&self) -> (r: bool)
        ensures
            r == self.right,
    {
        self.right
    }

    pub fn fire_pressed(&self) -> (r: bool)
        ensures
            r == self.fire,
    {
        self.fire
    }
}

/// Bit pattern of -1.
pub const MINUS_ONE_BITS: u32 = 0xbf80_0000;

/// Bit pattern of 100: the depth at which characters are drawn.
pub const CHARACTER_Z_BITS: u32 = 0x42c8_0000;

/// Bit pattern of 0.1.
pub const TENTH_BITS: u32 = 0x3dcc_cccd;

/// Bit pattern of 0.15.
pub const CHARACTER_HEIGHT_BITS: u32 = 0x3e19_999a;

/// Bit pattern of 0.035.
pub const SHOT_WIDTH_BITS: u32 = 0x3d0f_5c29;

/// Bit pattern of 0.05.
pub const SHOT_HEIGHT_BITS: u32 = 0x3d4c_cccd;

/// Bit pattern of 5: the speed of a shot.
pub const SHOT_SPEED_BITS: u32 = 0x40a0_0000;

/// Bit pattern of -5.
pub const MINUS_SHOT_SPEED_BITS: u32 = 0xc0a0_0000;

/// The way the player is pushed while the keys of `input` are held: left or
/// right at speed 1, right winning over left, and upwards with the jump key.
pub open spec fn push_of(input: InputManager) -> CgVec3 {
    CgVec3 {
        x: if input.right {
            KbFloat { bits: ONE_BITS }
        } else if input.left {
            KbFloat { bits: MINUS_ONE_BITS }
        } else {
            KbFloat { bits: ZERO_BITS }
        },
        y: if input.up_pressed {
            KbFloat { bits: ONE_BITS }
        } else {
            KbFloat { bits: ZERO_BITS }
        },
        z: KbFloat { bits: ZERO_BITS },
    }
}

/// The way the player faces while the keys of `input` are held.
pub open spec fn facing_of(input: InputManager, facing: KbFloat) -> KbFloat {
    if input.right {
        KbFloat { bits: ONE_BITS }
    } else if input.left {
        KbFloat { bits: MINUS_ONE_BITS }
    } else {
        facing
    }
}

/// The robot that enters the screen at height `y_pos`, born at `now`. It
/// comes from the right and walks left at `speed`, or, with `from_left`, from
/// the left and walks right.
pub open spec fn enemy_value(
    from_left: bool,
    y_pos: KbFloat,
    speed: KbFloat,
    now: instant::Instant,
) -> GameObject {
    GameObject {
        position: CgVec3 {
            x: KbFloat { bits: if from_left { MINUS_ONE_BITS } else { ONE_BITS } },
            y: y_pos,
            z: KbFloat { bits: CHARACTER_Z_BITS },
        },
        scale: CgVec3::from_bits_value(TENTH_BITS, CHARACTER_HEIGHT_BITS, CHARACTER_HEIGHT_BITS),
        direction: CgVec3::from_bits_value(ONE_BITS, ZERO_BITS, ZERO_BITS),
        velocity: CgVec3 {
            x: if from_left {
                turned_round(speed.negated())
            } else {
                speed.negated()
            },
            y: KbFloat { bits: ZERO_BITS },
            z: KbFloat { bits: ZERO_BITS },
        },
        object_type: GameObjectType::Robot,
        object_state: GameObjectState::Running,
        next_attack_time: KbFloat { bits: ZERO_BITS },
        texture_index: 0,
        sprite_index: 8,
        anim_frame: 0,
        life_start_time: now,
        state_start_time: now,
        gravity_scale: KbFloat { bits: ZERO_BITS },
        is_enemy: true,
        random_val: KbFloat { bits: ZERO_BITS },
    }
}

/// The shot that the player fires from `muzzle` at `now`: it flies the way
/// the player faces, to the right when `direction.x` is positive.
pub open spec fn shot_value(muzzle: CgVec3, direction: CgVec3, now: instant::Instant) -> GameObject {
    GameObject {
        position: muzzle,
        scale: CgVec3::from_bits_value(SHOT_WIDTH_BITS, SHOT_HEIGHT_BITS, SHOT_HEIGHT_BITS),
        direction,
        velocity: CgVec3 {
            x: KbFloat {
                bits: if (KbFloat { bits: ZERO_BITS }).less(direction.x) {
                    SHOT_SPEED_BITS
                } else {
                    MINUS_SHOT_SPEED_BITS
                },
            },
            y: KbFloat { bits: ZERO_BITS },
            z: KbFloat { bits: ZERO_BITS },
        },
        object_type: GameObjectType::Projectile,
        object_state: GameObjectState::Idle,
        next_attack_time: KbFloat { bits: ZERO_BITS },
        texture_index: 0,
        sprite_index: 5,
        anim_frame: 0,
        life_start_time: now,
        state_start_time: now,
        gravity_scale: KbFloat { bits: ZERO_BITS },
        is_enemy: false,
        random_val: KbFloat { bits: ZERO_BITS },
    }
}

/// True when the object at `j` is what the projectile at `i` hits: another
/// object that is no projectile, fights on the other side and is within reach.
pub open spec fn is_target(
    objects: Seq<GameObject>,
    within_reach: Seq<bool>,
    i: int,
    j: int,
) -> bool {
    &&& 0 <= j < objects.len()
    &&& j != i
    &&& objects[j].object_type != GameObjectType::Projectile
    &&& objects[i].is_enemy != objects[j].is_enemy
    &&& within_reach[j]
}

/// The state of the 2D game.
pub struct GameEngine {
    pub input_manager: InputManager,
    pub asset_manager: AssetManager,
    pub game_objects: Vec<GameObject>,
    pub game_start_time: instant::Instant,
    pub current_frame_time: instant::Instant,
    pub next_enemy_spawn_time: KbFloat,
    pub num_enemies: u32,
    pub max_game_objects: usize,
    pub enemy_spawn_delay: KbFloat,
    pub enemy_speed: KbFloat,
}

impl GameEngine {
    /// True when an enemy appears at `game_time`: there is room for another
    /// object, and the time of the next enemy has passed.
    pub open spec fn enemy_due(&self, game_time: KbFloat) -> bool {
        self.game_objects@.len() < self.max_game_objects && self.next_enemy_spawn_time.less(
            game_time,
        )
    }

    /// A game without objects, started at `now`, whose first enemy appears at
    /// `first_spawn_time`.
    pub fn new(game_config: &KbConfig, now: instant::Instant, first_spawn_time: KbFloat) -> (r:
        Self)
        ensures
            r.input_manager == (InputManager {
                left: false,
                right: false,
                up_pressed: false,
                fire: false,
            }),
            r.asset_manager.count() == 0,
            r.game_objects@ == Seq::<GameObject>::empty(),
            r.game_start_time == now,
            r.current_frame_time == now,
            r.next_enemy_spawn_time == first_spawn_time,
            r.num_enemies == 0,
            r.max_game_objects == game_config.max_render_instances,
            r.enemy_spawn_delay == game_config.enemy_spawn_delay,
            r.enemy_speed == game_config.enemy_move_speed,
    {
        GameEngine {
            input_manager: InputManager::new(),
            asset_manager: AssetManager::new(),
            game_objects: Vec::new(),
            game_start_time: now,
            current_frame_time: now,
            next_enemy_spawn_time: first_spawn_time,
            num_enemies: 0,
            max_game_objects: game_config.max_render_instances as usize,
            enemy_spawn_delay: game_config.enemy_spawn_delay,
            enemy_speed: game_config.enemy_move_speed,
        }
    }

    /// Decides [`GameEngine::enemy_due`].
    pub fn enemy_is_due(&self, game_time: KbFloat) -> (r: bool)
        ensures
            r == self.enemy_due(game_time),
    {
        self.game_objects.len() < self.max_game_objects && game_time.gt(
            self.next_enemy_spawn_time,
        )
    }

    /// Lets an enemy appear at time `now`, at height `y_pos`, and sets the
    /// time of the next one to `next_spawn_time`.
    pub fn spawn_enemy(
        &mut self,
        from_left: bool,
        y_pos: KbFloat,
        next_spawn_time: KbFloat,
        now: instant::Instant,
    )
        requires
            old(self).num_enemies < u32::MAX,
        ensures
            final(self).game_objects@ == old(self).game_objects@.push(
                enemy_value(from_left, y_pos, old(self).enemy_speed, now),
            ),
            final(self).num_enemies == old(self).num_enemies + 1,
            final(self).next_enemy_spawn_time == next_spawn_time,
            final(self).input_manager == old(self).input_manager,
            final(self).asset_manager == old(self).asset_manager,
            final(self).game_start_time == old(self).game_start_time,
            final(self).current_frame_time == old(self).current_frame_time,
            final(self).max_game_objects == old(self).max_game_objects,
            final(self).enemy_spawn_delay == old(self).enemy_spawn_delay,
            final(self).enemy_speed == old(self).enemy_speed,
    {
        self.next_enemy_spawn_time = next_spawn_time;
        self.num_enemies = self.num_enemies + 1;
        let mut start_x = KbFloat { bits: ONE_BITS };
        let mut vel_x = self.enemy_speed.neg();
        if from_left {
            start_x = KbFloat { bits: MINUS_ONE_BITS };
            vel_x = turn_round(vel_x);
        }
        self.game_objects.push(
            GameObject {
                position: CgVec3 { x: start_x, y: y_pos, z: KbFloat { bits: CHARACTER_Z_BITS } },
                scale: CgVec3 {
                    x: KbFloat { bits: TENTH_BITS },
                    y: KbFloat { bits: CHARACTER_HEIGHT_BITS },
                    z: KbFloat { bits: CHARACTER_HEIGHT_BITS },
                },
                direction: CgVec3 {
                    x: KbFloat { bits: ONE_BITS },
                    y: KbFloat { bits: ZERO_BITS },
                    z: KbFloat { bits: ZERO_BITS },
                },
                velocity: CgVec3 {
                    x: vel_x,
                    y: KbFloat { bits: ZERO_BITS },
                    z: KbFloat { bits: ZERO_BITS },
                },
                object_type: GameObjectType::Robot,
                object_state: GameObjectState::Running,
                next_attack_time: KbFloat { bits: ZERO_BITS },
                texture_index: 0,
                sprite_index: 8,
                anim_frame: 0,
                life_start_time: now,
                state_start_time: now,
                gravity_scale: KbFloat { bits: ZERO_BITS },
                is_enemy: true,
                random_val: KbFloat { bits: ZERO_BITS },
            },
        );
    }

    /// Lets an enemy appear if one is due at `game_time`; the side it comes
    /// from is drawn at random. Otherwise nothing changes.
    pub fn update_enemies(
        &mut self,
        game_time: KbFloat,
        y_pos: KbFloat,
        next_spawn_time: KbFloat,
        now: instant::Instant,
    )
        requires
            old(self).enemy_due(game_time) ==> old(self).num_enemies < u32::MAX,
        ensures
            !old(self).enemy_due(game_time) ==> *final(self) == *old(self),
            old(self).enemy_due(game_time) ==> {
                &&& exists|from_left: bool|
                    final(self).game_objects@ == old(self).game_objects@.push(
                        #[trigger] enemy_value(from_left, y_pos, old(self).enemy_speed, now),
                    )
                &&& final(self).num_enemies == old(self).num_enemies + 1
                &&& final(self).next_enemy_spawn_time == next_spawn_time
                &&& final(self).input_manager == old(self).input_manager
                &&& final(self).asset_manager == old(self).asset_manager
                &&& final(self).game_start_time == old(self).game_start_time
                &&& final(self).current_frame_time == old(self).current_frame_time
                &&& final(self).max_game_objects == old(self).max_game_objects
                &&& final(self).enemy_spawn_delay == old(self).enemy_spawn_delay
                &&& final(self).enemy_speed == old(self).enemy_speed
            },
    {
        if !self.enemy_is_due(game_time) {
            return ;
        }
        let randnum = kb_random_u32(1, 2);
        self.spawn_enemy(randnum == 2, y_pos, next_spawn_time, now);
    }

    /// What the projectile at `i` hits: the first object that is a target.
    /// `within_reach` says of each object whether it is near enough to the
    /// one at `i`. An object at `i` that is no projectile hits nothing.
    pub fn find_target(&self, i: usize, within_reach: &Vec<bool>) -> (r: Option<usize>)
        requires
            i < self.game_objects@.len(),
            within_reach@.len() == self.game_objects@.len(),
        ensures
            self.game_objects@[i as int].object_type != GameObjectType::Projectile ==> r is None,
            r matches Some(j) ==> {
                &&& self.game_objects@[i as int].object_type == GameObjectType::Projectile
                &&& is_target(self.game_objects@, within_reach@, i as int, j as int)
                &&& forall|k: int|
                    0 <= k < j ==> !is_target(self.game_objects@, within_reach@, i as int, k)
            },
            r is None && self.game_objects@[i as int].object_type == GameObjectType::Projectile
                ==> forall|k: int| !is_target(self.game_objects@, within_reach@, i as int, k),
    {
        if !matches!(self.game_objects[i].object_type, GameObjectType::Projectile) {
            return None;
        }
        let mut j: usize = 0;
        while j < self.game_objects.len()
            invariant
                j <= self.game_objects@.len(),
                i < self.game_objects@.len(),
                within_reach@.len() == self.game_objects@.len(),
                self.game_objects@[i as int].object_type == GameObjectType::Projectile,
                forall|k: int|
                    0 <= k < j ==> !is_target(self.game_objects@, within_reach@, i as int, k),
            decreases self.game_objects@.len() - j,
        {
            if i == j || matches!(self.game_objects[j].object_type, GameObjectType::Projectile) {
                j = j + 1;
                continue ;
            }
            if self.game_objects[i].is_enemy == self.game_objects[j].is_enemy {
                j = j + 1;
                continue ;
            }
            if within_reach[j] {
                return Some(j);
            }
            j = j + 1;
        }
        None
    }

    /// Takes the objects at `i` and `j` out of the game; the others keep
    /// their order.
    pub fn remove_pair(&mut self, i: usize, j: usize)
        requires
            i < old(self).game_objects@.len(),
            j < old(self).game_objects@.len(),
            i != j,
        ensures
            final(self).game_objects@ == (if i > j {
                old(self).game_objects@.remove(i as int).remove(j as int)
            } else {
                old(self).game_objects@.remove(j as int).remove(i as int)
            }),
            final(self).game_objects@.len() == old(self).game_objects@.len() - 2,
            final(self).num_enemies == old(self).num_enemies,
            final(self).next_enemy_spawn_time == old(self).next_enemy_spawn_time,
            final(self).input_manager == old(self).input_manager,
            final(self).asset_manager == old(self).asset_manager,
            final(self).game_start_time == old(self).game_start_time,
            final(self).current_frame_time == old(self).current_frame_time,
            final(self).max_game_objects == old(self).max_game_objects,
            final(self).enemy_spawn_delay == old(self).enemy_spawn_delay,
            final(self).enemy_speed == old(self).enemy_speed,
    {
        if i > j {
            self.game_objects.remove(i);
            self.game_objects.remove(j);
        } else {
            self.game_objects.remove(j);
            self.game_objects.remove(i);
        }
    }

    /// Lets the projectile at `i` hit: when it has a target, both leave the
    /// game. Returns whether it hit. What [`GameEngine::find_target`] says of
    /// `within_reach` holds here too.
    pub fn resolve_projectile(&mut self, i: usize, within_reach: &Vec<bool>) -> (hit: bool)
        requires
            i < old(self).game_objects@.len(),
            within_reach@.len() == old(self).game_objects@.len(),
        ensures
            hit ==> exists|j: int|
                {
                    &&& #[trigger] is_target(old(self).game_objects@, within_reach@, i as int, j)
                    &&& forall|k: int|
                        0 <= k < j ==> !is_target(
                            old(self).game_objects@,
                            within_reach@,
                            i as int,
                            k,
                        )
                    &&& final(self).game_objects@ == (if i > j {
                        old(self).game_objects@.remove(i as int).remove(j)
                    } else {
                        old(self).game_objects@.remove(j).remove(i as int)
                    })
                },
            hit ==> old(self).game_objects@[i as int].object_type == GameObjectType::Projectile,
            !hit ==> final(self).game_objects@ == old(self).game_objects@,
            !hit && old(self).game_objects@[i as int].object_type == GameObjectType::Projectile
                ==> forall|k: int|
                !is_target(old(self).game_objects@, within_reach@, i as int, k),
            final(self).num_enemies == old(self).num_enemies,
            final(self).next_enemy_spawn_time == old(self).next_enemy_spawn_time,
            final(self).input_manager == old(self).input_manager,
            final(self).asset_manager == old(self).asset_manager,
            final(self).game_start_time == old(self).game_start_time,
            final(self).current_frame_time == old(self).current_frame_time,
            final(self).max_game_objects == old(self).max_game_objects,
            final(self).enemy_spawn_delay == old(self).enemy_spawn_delay,
            final(self).enemy_speed == old(self).enemy_speed,
    {
        match self.find_target(i, within_reach) {
            Some(j) => {
                self.remove_pair(i, j);
                assert(is_target(old(self).game_objects@, within_reach@, i as int, j as int));
                true
            },
            None => false,
        }
    }

    /// Applies the keys to the player, the first object of the game, at time
    /// `now`: it faces the way it is pushed and is pushed as the keys say.
    pub fn steer_player(&mut self, now: instant::Instant)
        requires
            old(self).game_objects@.len() > 0,
        ensures
            final(self).game_objects@ == old(self).game_objects@.update(
                0,
                (GameObject {
                    direction: CgVec3 {
                        x: facing_of(
                            old(self).input_manager,
                            old(self).game_objects@[0].direction.x,
                        ),
                        ..old(self).game_objects@[0].direction
                    },
                    ..old(self).game_objects@[0]
                }).pushed(push_of(old(self).input_manager), now),
            ),
            final(self).num_enemies == old(self).num_enemies,
            final(self).next_enemy_spawn_time == old(self).next_enemy_spawn_time,
            final(self).input_manager == old(self).input_manager,
            final(self).asset_manager == old(self).asset_manager,
            final(self).game_start_time == old(self).game_start_time,
            final(self).current_frame_time == old(self).current_frame_time,
            final(self).max_game_objects == old(self).max_game_objects,
            final(self).enemy_spawn_delay == old(self).enemy_spawn_delay,
            final(self).enemy_speed == old(self).enemy_speed,
    {
        let mut player = self.game_objects[0];
        let mut move_vec = CgVec3 {
            x: KbFloat { bits: ZERO_BITS },
            y: KbFloat { bits: ZERO_BITS },
            z: KbFloat { bits: ZERO_BITS },
        };
        if self.input_manager.left_pressed() {
            move_vec.x = KbFloat { bits: MINUS_ONE_BITS };
            player.direction.x = KbFloat { bits: MINUS_ONE_BITS };
        }
        if self.input_manager.right_pressed() {
            move_vec.x = KbFloat { bits: ONE_BITS };
            player.direction.x = KbFloat { bits: ONE_BITS };
        }
        if self.input_manager.up_pressed {
            move_vec.y = KbFloat { bits: ONE_BITS };
        }
        player.set_velocity(move_vec, now);
        self.game_objects.set(0, player);
    }

    /// Lets the player fire if the fire key is held and the player may attack
    /// at `cur_time`; see [`GameObject::start_attack`]. The shot starts at
    /// `muzzle`, which the caller puts a little in front of the player.
    pub fn fire(
        &mut self,
        cur_time: KbFloat,
        rearm_time: KbFloat,
        muzzle: CgVec3,
        now: instant::Instant,
    ) -> (fired: bool)
        requires
            old(self).game_objects@.len() > 0,
        ensures
            fired == (old(self).input_manager.fire && !cur_time.less(
                old(self).game_objects@[0].next_attack_time,
            )),
            !old(self).input_manager.fire ==> final(self).game_objects@ == old(self).game_objects@,
            old(self).input_manager.fire && !fired ==> final(self).game_objects@ == old(
                self,
            ).game_objects@,
            fired ==> final(self).game_objects@ == old(self).game_objects@.update(
                0,
                (GameObject { next_attack_time: rearm_time, ..old(self).game_objects@[0] }),
            ).push(shot_value(muzzle, old(self).game_objects@[0].direction, now)),
            final(self).num_enemies == old(self).num_enemies,
            final(self).next_enemy_spawn_time == old(self).next_enemy_spawn_time,
            final(self).input_manager == old(self).input_manager,
            final(self).asset_manager == old(self).asset_manager,
            final(self).game_start_time == old(self).game_start_time,
            final(self).current_frame_time == old(self).current_frame_time,
            final(self).max_game_objects == old(self).max_game_objects,
            final(self).enemy_spawn_delay == old(self).enemy_spawn_delay,
            final(self).enemy_speed == old(self).enemy_speed,
    {
        if !self.input_manager.fire_pressed() {
            return false;
        }
        let mut player = self.game_objects[0];
        let started = player.start_attack(cur_time, rearm_time);
        self.game_objects.set(0, player);
        assert(!started ==> self.game_objects@ =~= old(self).game_objects@);
        if !started {
            return false;
        }
        let direction = player.direction;
        let speed = if direction.x.gt(KbFloat::zero()) {
            SHOT_SPEED_BITS
        } else {
            MINUS_SHOT_SPEED_BITS
        };
        self.game_objects.push(
            GameObject {
                position: muzzle,
                scale: CgVec3 {
                    x: KbFloat { bits: SHOT_WIDTH_BITS },
                    y: KbFloat { bits: SHOT_HEIGHT_BITS },
                    z: KbFloat { bits: SHOT_HEIGHT_BITS },
                },
                direction,
                velocity: CgVec3 {
                    x: KbFloat { bits: speed },
                    y: KbFloat { bits: ZERO_BITS },
                    z: KbFloat { bits: ZERO_BITS },
                },
                object_type: GameObjectType::Projectile,
                object_state: GameObjectState::Idle,
                next_attack_time: KbFloat { bits: ZERO_BITS },
                texture_index: 0,
                sprite_index: 5,
                anim_frame: 0,
                life_start_time: now,
                state_start_time: now,
                gravity_scale: KbFloat { bits: ZERO_BITS },
                is_enemy: false,
                random_val: KbFloat { bits: ZERO_BITS },
            },
        );
        true
    }
}

} // verus!
