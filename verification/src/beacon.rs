//! The beacon block entity.
//!
//! Each tick scans up to ten blocks of the column above the beacon; once the scan reaches the
//! world surface the result becomes the active beam state. Every 80 game ticks an active beacon
//! re-measures its pyramid and applies its effects to players in range.
use vstd::prelude::*;

use crate::beam::{above, scan_asks, scan_column, scan_result, ColumnScan};
use crate::effect::{
    decode_effect, decoded, effect_with_name, encode_effect, encoded, filter_effect, granted,
    EffectRegistry, StatusEffect,
};
use crate::nbt::{int_in, string_in, unique, with_tag, NbtCompound, NbtValue, Tags};
use crate::property::{
    PropertyDelegate, DATA_LEVELS, DATA_PRIMARY, DATA_SECONDARY, NUM_DATA_VALUES,
};
use crate::pyramid::{has_room, measuring_asks, pyramid_result, update_base, MAX_LEVELS};
use crate::world::{Block, BlockPos, BoundingBox, WorldInfo};

verus! {

/// The number of ticks from one pulse of an active beacon to the next.
pub const PULSE_TICKS: i64 = 80;

/// A beacon.
#[derive(Debug)]
pub struct BeaconBlockEntity<'a> {
    registry: &'a EffectRegistry,
    pub position: BlockPos,
    /// Encoded: `0` = none, otherwise `effect id + 1`.
    primary_effect: i32,
    secondary_effect: i32,
    levels: i32,
    dirty: bool,
    /// Result of the last completed column scan: `true` when nothing opaque blocks the beam.
    beam_active: bool,
    /// Whether the scan currently in progress has hit an opaque block.
    checking_beam_blocked: bool,
    last_check_y: i32,
    /// Set when the primary effect changes while the beam is up; consumed by `tick`.
    play_select_sound: bool,
    custom_name: Option<String>,
    lock_key: Option<String>,
}

/// What a beacon is made of.
pub ghost struct BeaconView {
    pub registry: Seq<StatusEffect>,
    pub position: BlockPos,
    pub primary_effect: i32,
    pub secondary_effect: i32,
    pub levels: i32,
    pub dirty: bool,
    pub beam_active: bool,
    pub checking_beam_blocked: bool,
    pub last_check_y: i32,
    pub play_select_sound: bool,
    pub custom_name: Option<Seq<char>>,
    pub lock_key: Option<Seq<char>>,
}

/// What an optional string says.
pub open spec fn text(string: Option<String>) -> Option<Seq<char>> {
    match string {
        None => None,
        Some(s) => Some(s@),
    }
}

impl<'a> View for BeaconBlockEntity<'a> {
    type V = BeaconView;

    closed spec fn view(&self) -> BeaconView {
        BeaconView {
            registry: self.registry@,
            position: self.position,
            primary_effect: self.primary_effect,
            secondary_effect: self.secondary_effect,
            levels: self.levels,
            dirty: self.dirty,
            beam_active: self.beam_active,
            checking_beam_blocked: self.checking_beam_blocked,
            last_check_y: self.last_check_y,
            play_select_sound: self.play_select_sound,
            custom_name: text(self.custom_name),
            lock_key: text(self.lock_key),
        }
    }
}

/// A beacon that was just placed.
pub open spec fn placed(registry: Seq<StatusEffect>, position: BlockPos) -> BeaconView {
    BeaconView {
        registry,
        position,
        primary_effect: 0,
        secondary_effect: 0,
        levels: 0,
        dirty: false,
        beam_active: false,
        checking_beam_blocked: false,
        last_check_y: (position.y - 1) as i32,
        play_select_sound: false,
        custom_name: None,
        lock_key: None,
    }
}

/// The effect that a compound names under `name`, encoded; `0` where it names none that a beacon
/// grants.
pub open spec fn effect_in(
    registry: Seq<StatusEffect>,
    compound: Tags,
    name: Seq<char>,
) -> int {
    match string_in(compound, name) {
        None => 0,
        Some(effect) => encoded(granted(effect_with_name(registry, effect))),
    }
}

/// The beacon that a compound describes.
pub open spec fn loaded(
    registry: Seq<StatusEffect>,
    compound: Tags,
    position: BlockPos,
) -> BeaconView {
    BeaconView {
        primary_effect: effect_in(registry, compound, "primary_effect"@) as i32,
        secondary_effect: effect_in(registry, compound, "secondary_effect"@) as i32,
        levels: match int_in(compound, "Levels"@) {
            Some(levels) => levels,
            None => 0,
        },
        custom_name: string_in(compound, "CustomName"@),
        lock_key: string_in(compound, "Lock"@),
        ..placed(registry, position)
    }
}

/// A compound after `value`, if there is one, was put into it under `name`.
pub open spec fn with_text(
    compound: Tags,
    name: Seq<char>,
    value: Option<Seq<char>>,
) -> Tags {
    match value {
        None => compound,
        Some(text) => with_tag(compound, name, NbtValue::String(text)),
    }
}

/// The resource name of the effect that `value` encodes.
pub open spec fn effect_name(registry: Seq<StatusEffect>, value: i32) -> Option<Seq<char>> {
    match decoded(registry, value as int) {
        None => None,
        Some(effect) => Some(effect.minecraft_name@),
    }
}

/// A compound after a beacon was written into it.
pub open spec fn saved(beacon: BeaconView, compound: Tags) -> Tags {
    let compound = with_text(
        compound,
        "primary_effect"@,
        effect_name(beacon.registry, beacon.primary_effect),
    );
    let compound = with_text(
        compound,
        "secondary_effect"@,
        effect_name(beacon.registry, beacon.secondary_effect),
    );
    let compound = with_tag(compound, "Levels"@, NbtValue::Int(beacon.levels));
    let compound = with_text(compound, "CustomName"@, beacon.custom_name);
    with_text(compound, "Lock"@, beacon.lock_key)
}

/// A sound of the beacon block.
#[derive(Debug, Clone, Copy, PartialEq, Eq, Structural)]
pub enum Sound {
    BlockBeaconAmbient,
    BlockBeaconActivate,
    BlockBeaconDeactivate,
    BlockBeaconPowerSelect,
}

/// An advancement that activating a beacon counts towards.
#[derive(Debug, Clone, Copy, PartialEq, Eq, Structural)]
pub enum Advancement {
    NetherCreateBeacon,
    NetherCreateFullBeacon,
}

/// The criterion of both advancements.
pub const CRITERION: &'static str = "beacon";

/// A status effect as it is given to a player.
#[derive(Debug)]
pub struct Effect<'a> {
    pub effect_type: &'a StatusEffect,
    /// In ticks.
    pub duration: i32,
    pub amplifier: u8,
    pub ambient: bool,
    pub show_particles: bool,
    pub show_icon: bool,
    pub blend: bool,
}

/// The effects that each player in `bounds` receives, the primary one first.
#[derive(Debug)]
pub struct BeaconGrant<'a> {
    pub bounds: BoundingBox,
    pub primary: Effect<'a>,
    pub secondary: Option<Effect<'a>>,
}

/// The advancements that each player in `bounds` makes progress in, in this order.
#[derive(Debug, Clone, Copy, PartialEq, Eq, Structural)]
pub struct ConstructTrigger {
    pub bounds: BoundingBox,
    pub advancement: Advancement,
    pub full: Option<Advancement>,
}

/// What the world has to do for a beacon.
#[derive(Debug)]
pub enum TickAction<'a> {
    ApplyEffects(BeaconGrant<'a>),
    PlaySound(Sound),
    ConstructBeacon(ConstructTrigger),
}

/// An effect of a beacon: ambient, shown with particles and icon, not blended.
pub open spec fn beacon_effect<'a>(effect_type: &'a StatusEffect, levels: int, amplifier: u8) -> Effect<
    'a,
> {
    Effect {
        effect_type,
        duration: ((9 + levels * 2) * 20) as i32,
        amplifier,
        ambient: true,
        show_particles: true,
        show_icon: true,
        blend: false,
    }
}

/// How far a beacon of `levels` layers reaches: ten blocks and ten for each layer, from its block
/// to every side, and upwards by the height of the world besides.
pub open spec fn reach(position: BlockPos, height: int, levels: int) -> BoundingBox {
    let range = levels * 10 + 10;
    BoundingBox {
        min_x: (position.x - range) as i64,
        min_y: (position.y - range) as i64,
        min_z: (position.z - range) as i64,
        max_x: (position.x + 1 + range) as i64,
        max_y: (position.y + 1 + range + height) as i64,
        max_z: (position.z + 1 + range) as i64,
    }
}

/// What a beacon of `levels` layers gives to the players in its reach.
///
/// The primary effect is given at amplifier one if the pyramid is complete and the secondary
/// effect is the same; another secondary effect is given beside it if the pyramid is complete.
pub open spec fn grant<'a>(beacon: BeaconView, height: int, levels: int) -> Option<BeaconGrant<'a>> {
    match decoded(beacon.registry, beacon.primary_effect as int) {
        None => None,
        Some(primary) => {
            let secondary = decoded(beacon.registry, beacon.secondary_effect as int);
            let full = levels >= MAX_LEVELS;
            let same = secondary matches Some(s) && s.id == primary.id;
            Some(
                BeaconGrant {
                    bounds: reach(beacon.position, height, levels),
                    primary: beacon_effect(
                        primary,
                        levels,
                        if full && same {
                            1
                        } else {
                            0
                        },
                    ),
                    secondary: match secondary {
                        Some(s) if full && !same => Some(beacon_effect(s, levels, 0)),
                        _ => None,
                    },
                },
            )
        },
    }
}

/// The advancements due when a beacon comes to have `levels` layers, and where.
pub open spec fn construct_trigger(position: BlockPos, levels: int) -> ConstructTrigger {
    ConstructTrigger {
        bounds: BoundingBox {
            min_x: (position.x - 10) as i64,
            min_y: (position.y - 9) as i64,
            min_z: (position.z - 10) as i64,
            max_x: (position.x + 10) as i64,
            max_y: (position.y + 5) as i64,
            max_z: (position.z + 10) as i64,
        },
        advancement: Advancement::NetherCreateBeacon,
        full: if levels >= MAX_LEVELS {
            Some(Advancement::NetherCreateFullBeacon)
        } else {
            None
        },
    }
}

/// A tick at this age of the world is one at which active beacons pulse.
pub open spec fn pulses(world: WorldInfo) -> bool {
    world.age as int % PULSE_TICKS as int == 0
}

/// The height up to which the column was checked when a tick goes on with the scan: a scan that
/// is not yet in the column starts at the beacon itself.
pub open spec fn scan_start(beacon: BeaconView) -> int {
    if beacon.last_check_y < beacon.position.y {
        beacon.position.y - 1
    } else {
        beacon.last_check_y as int
    }
}

/// Whether the scan in progress has met a block that cuts the beam, once `scan` is done.
pub open spec fn scan_blocked(beacon: BeaconView, scan: ColumnScan) -> bool {
    scan.cut || (beacon.last_check_y >= beacon.position.y && beacon.checking_beam_blocked)
}

/// The layers that the beacon counts after a tick at which measuring the pyramid gives `measured`.
pub open spec fn counted_levels(beacon: BeaconView, world: WorldInfo, measured: i32) -> i32 {
    if pulses(world) && beacon.beam_active {
        measured
    } else {
        beacon.levels
    }
}

/// A beacon after a tick that scanned as far as `scan` and, if it had to measure the pyramid,
/// found `measured` layers.
pub open spec fn ticked(
    beacon: BeaconView,
    world: WorldInfo,
    scan: ColumnScan,
    measured: i32,
) -> BeaconView {
    let finished = scan.last_check_y >= world.surface_y;
    let levels = counted_levels(beacon, world, measured);
    BeaconView {
        levels,
        dirty: beacon.dirty || levels != beacon.levels,
        beam_active: if finished {
            !scan_blocked(beacon, scan)
        } else {
            beacon.beam_active
        },
        checking_beam_blocked: scan_blocked(beacon, scan),
        last_check_y: if finished {
            (world.min_y - 1) as i32
        } else {
            scan.last_check_y
        },
        play_select_sound: false,
        ..beacon
    }
}

/// What a lit beacon with `levels` layers has the world do at a pulse: apply its effects, and play
/// the ambient sound.
pub open spec fn pulse_actions<'a>(
    beacon: BeaconView,
    world: WorldInfo,
    levels: i32,
) -> Seq<TickAction<'a>> {
    if pulses(world) && levels > 0 && beacon.beam_active {
        match grant(beacon, world.height as int, levels as int) {
            Some(given) => seq![
                TickAction::ApplyEffects(given),
                TickAction::PlaySound(Sound::BlockBeaconAmbient),
            ],
            None => seq![TickAction::PlaySound(Sound::BlockBeaconAmbient)],
        }
    } else {
        seq![]
    }
}

/// What the world does when a scan is complete and the beacon came to have layers, or lost them.
pub open spec fn change_actions<'a>(
    beacon: BeaconView,
    finished: bool,
    levels: i32,
) -> Seq<TickAction<'a>> {
    if finished && beacon.levels <= 0 && levels > 0 {
        seq![
            TickAction::PlaySound(Sound::BlockBeaconActivate),
            TickAction::ConstructBeacon(construct_trigger(beacon.position, levels as int)),
        ]
    } else if finished && beacon.levels > 0 && levels <= 0 {
        seq![TickAction::PlaySound(Sound::BlockBeaconDeactivate)]
    } else {
        seq![]
    }
}

/// The sound of a new primary effect.
pub open spec fn select_actions<'a>(beacon: BeaconView) -> Seq<TickAction<'a>> {
    if beacon.play_select_sound {
        seq![TickAction::PlaySound(Sound::BlockBeaconPowerSelect)]
    } else {
        seq![]
    }
}

/// What the world has to do after that tick, in this order.
pub open spec fn tick_actions<'a>(
    beacon: BeaconView,
    world: WorldInfo,
    scan: ColumnScan,
    measured: i32,
) -> Seq<TickAction<'a>> {
    let levels = counted_levels(beacon, world, measured);
    pulse_actions(beacon, world, levels) + change_actions(
        beacon,
        scan.last_check_y >= world.surface_y,
        levels,
    ) + select_actions(beacon)
}

/// `after` and `actions` are what a tick makes of `beacon`, going by the blocks of the column
/// that `block_at` reports and the blocks of the pyramid that `is_base` reports.
pub open spec fn tick_result<'a, F: Fn(BlockPos) -> Block, G: Fn(BlockPos) -> bool>(
    beacon: BeaconView,
    world: WorldInfo,
    block_at: F,
    is_base: G,
    after: BeaconView,
    actions: Seq<TickAction<'a>>,
) -> bool {
    exists|scan: ColumnScan, measured: i32| #[trigger]
        tick_reads(beacon, world, block_at, is_base, scan, measured) && after == ticked(
            beacon,
            world,
            scan,
            measured,
        ) && actions == tick_actions(beacon, world, scan, measured)
}

/// A tick may scan as far as `scan` and, if it has to measure the pyramid, find `measured` layers.
pub open spec fn tick_reads<F: Fn(BlockPos) -> Block, G: Fn(BlockPos) -> bool>(
    beacon: BeaconView,
    world: WorldInfo,
    block_at: F,
    is_base: G,
    scan: ColumnScan,
    measured: i32,
) -> bool {
    &&& scan_result(
        block_at,
        beacon.position,
        scan_start(beacon),
        world.surface_y as int,
        scan,
    )
    &&& pulses(world) && beacon.beam_active ==> pyramid_result(
        is_base,
        beacon.position,
        world.min_y as int,
        measured as int,
    )
}

impl<'a> BeaconBlockEntity<'a> {
    /// Resource name of the beacon block entity.
    pub const ID: &'static str = "minecraft:beacon";

    /// A beacon at `position`, in a game that knows the effects of `registry`.
    pub fn new(registry: &'a EffectRegistry, position: BlockPos) -> (beacon: Self)
        requires
            position.y > i32::MIN,
        ensures
            beacon@ == placed(registry@, position),
    {
        BeaconBlockEntity {
            registry,
            position,
            primary_effect: 0,
            secondary_effect: 0,
            levels: 0,
            dirty: false,
            beam_active: false,
            checking_beam_blocked: false,
            last_check_y: position.y - 1,
            play_select_sound: false,
            custom_name: None,
            lock_key: None,
        }
    }

    /// The number of pyramid layers that the beacon last counted.
    pub fn levels(&self) -> (levels: i32)
        ensures
            levels == self@.levels,
    {
        self.levels
    }

    /// The primary effect.
    pub fn primary_effect(&self) -> (effect: Option<&'a StatusEffect>)
        ensures
            effect == decoded(self@.registry, self@.primary_effect as int),
    {
        decode_effect(self.registry, self.primary_effect)
    }

    /// The secondary effect.
    pub fn secondary_effect(&self) -> (effect: Option<&'a StatusEffect>)
        ensures
            effect == decoded(self@.registry, self@.secondary_effect as int),
    {
        decode_effect(self.registry, self.secondary_effect)
    }

    fn mark_dirty(&mut self)
        ensures
            final(self)@ == (BeaconView { dirty: true, ..old(self)@ }),
    {
        self.dirty = true;
    }

    /// What the beacon, with `levels` pyramid layers, gives to the players in its reach in a
    /// world of height `height`.
    pub fn apply_effects(&self, height: i32, levels: i32) -> (given: Option<BeaconGrant<'a>>)
        requires
            decoded(self@.registry, self@.primary_effect as int) is Some ==> i32::MIN <= (9 + levels
                * 2) * 20 <= i32::MAX,
        ensures
            given == grant(self@, height as int, levels as int),
    {
        let primary = match self.primary_effect() {
            Some(primary) => primary,
            None => return None,
        };
        let secondary = self.secondary_effect();
        let same = match secondary {
            Some(s) => s.id == primary.id,
            None => false,
        };
        let range: i64 = (levels * 10 + 10) as i64;
        let base_amp: u8 = if levels >= MAX_LEVELS && same {
            1
        } else {
            0
        };
        let duration: i32 = (9 + levels * 2) * 20;
        let x: i64 = self.position.x as i64;
        let y: i64 = self.position.y as i64;
        let z: i64 = self.position.z as i64;
        let bounds = BoundingBox {
            min_x: x - range,
            min_y: y - range,
            min_z: z - range,
            max_x: x + 1 + range,
            max_y: y + 1 + range + height as i64,
            max_z: z + 1 + range,
        };
        let second = match secondary {
            Some(s) => if levels >= MAX_LEVELS && !same {
                Some(new_effect(s, duration, 0))
            } else {
                None
            },
            None => None,
        };
        Some(
            BeaconGrant {
                bounds,
                primary: new_effect(primary, duration, base_amp),
                secondary: second,
            },
        )
    }

    /// The advancements due to players near a freshly activated beacon.
    pub fn trigger_construct_beacon(&self, levels: i32) -> (trigger: ConstructTrigger)
        ensures
            trigger == construct_trigger(self@.position, levels as int),
    {
        let x: i64 = self.position.x as i64;
        let y: i64 = self.position.y as i64;
        let z: i64 = self.position.z as i64;
        ConstructTrigger {
            bounds: BoundingBox {
                min_x: x - 10,
                min_y: y - 4 - 5,
                min_z: z - 10,
                max_x: x + 10,
                max_y: y + 5,
                max_z: z + 10,
            },
            advancement: Advancement::NetherCreateBeacon,
            full: if levels >= MAX_LEVELS {
                Some(Advancement::NetherCreateFullBeacon)
            } else {
                None
            },
        }
    }

    fn effect_from_nbt(registry: &EffectRegistry, nbt: &NbtCompound, name: &str) -> (value: i32)
        ensures
            value == effect_in(registry@, nbt@, name@),
    {
        match nbt.get_string(name) {
            None => 0,
            Some(effect) => encode_effect(filter_effect(registry.from_minecraft_name(effect))),
        }
    }

    fn effect_to_nbt(registry: &EffectRegistry, nbt: &mut NbtCompound, name: &str, value: i32)
        ensures
            final(nbt)@ == with_text(old(nbt)@, name@, effect_name(registry@, value)),
            unique(old(nbt)@) ==> unique(final(nbt)@),
    {
        if let Some(effect) = decode_effect(registry, value) {
            nbt.put_string(name, effect.minecraft_name.clone());
        }
    }

    /// The beacon at `position` that `nbt` describes, in a game that knows the effects of
    /// `registry`.
    pub fn from_nbt(registry: &'a EffectRegistry, nbt: &NbtCompound, position: BlockPos) -> (beacon:
        Self)
        requires
            position.y > i32::MIN,
        ensures
            beacon@ == loaded(registry@, nbt@, position),
    {
        let mut beacon = Self::new(registry, position);
        beacon.primary_effect = Self::effect_from_nbt(registry, nbt, "primary_effect");
        beacon.secondary_effect = Self::effect_from_nbt(registry, nbt, "secondary_effect");
        beacon.levels = nbt.get_int("Levels").unwrap_or(0);
        beacon.custom_name = copied(nbt.get_string("CustomName"));
        beacon.lock_key = copied(nbt.get_string("Lock"));
        beacon
    }

    /// Writes the beacon into `nbt`.
    pub fn write_nbt(&self, nbt: &mut NbtCompound)
        ensures
            final(nbt)@ == saved(self@, old(nbt)@),
            unique(old(nbt)@) ==> unique(final(nbt)@),
    {
        Self::effect_to_nbt(self.registry, nbt, "primary_effect", self.primary_effect);
        Self::effect_to_nbt(self.registry, nbt, "secondary_effect", self.secondary_effect);
        nbt.put_int("Levels", self.levels);
        if let Some(name) = &self.custom_name {
            nbt.put_string("CustomName", name.clone());
        }
        if let Some(lock) = &self.lock_key {
            nbt.put_string("Lock", lock.clone());
        }
    }

    /// What the client is told of the beacon with its chunk.
    pub fn chunk_data_nbt(&self) -> (nbt: Option<NbtCompound>)
        ensures
            nbt matches Some(compound) && compound@ == saved(self@, Tags::empty()) && unique(
                compound@,
            ),
    {
        let mut nbt = NbtCompound::new();
        self.write_nbt(&mut nbt);
        Some(nbt)
    }

    /// The resource name of the block entity.
    pub fn resource_location(&self) -> (id: &'static str)
        ensures
            id@ == Self::ID@,
    {
        Self::ID
    }

    /// Where the beacon stands.
    pub fn get_position(&self) -> (position: BlockPos)
        ensures
            position == self@.position,
    {
        self.position
    }

    /// Whether the beacon changed since it was last saved.
    pub fn is_dirty(&self) -> (dirty: bool)
        ensures
            dirty == self@.dirty,
    {
        self.dirty
    }

    /// Notes that the beacon was saved.
    pub fn clear_dirty(&mut self)
        ensures
            final(self)@ == (BeaconView { dirty: false, ..old(self)@ }),
    {
        self.dirty = false;
    }

    /// The sound of removing the block, lit or not.
    pub fn on_block_replaced(&self) -> (sound: Sound)
        ensures
            sound == Sound::BlockBeaconDeactivate,
    {
        Sound::BlockBeaconDeactivate
    }

    /// Appends what a pulse of the beacon has the world do.
    fn push_pulse(&self, world: &WorldInfo, levels: i32, actions: &mut Vec<TickAction<'a>>)
        requires
            levels <= MAX_LEVELS,
        ensures
            final(actions)@ == old(actions)@ + pulse_actions(self@, *world, levels),
    {
        let ghost before = actions@;
        if world.age % PULSE_TICKS == 0 && levels > 0 && self.beam_active {
            if let Some(given) = self.apply_effects(world.height, levels) {
                actions.push(TickAction::ApplyEffects(given));
            }
            actions.push(TickAction::PlaySound(Sound::BlockBeaconAmbient));
        }
        assert(actions@ =~= before + pulse_actions(self@, *world, levels));
    }

    /// Appends what a completed scan has the world do, the beacon now having `levels` layers.
    fn push_change(&self, finished: bool, levels: i32, actions: &mut Vec<TickAction<'a>>)
        ensures
            final(actions)@ == old(actions)@ + change_actions(self@, finished, levels),
    {
        let ghost before = actions@;
        if finished {
            let was_active = self.levels > 0;
            let is_active = levels > 0;
            if !was_active && is_active {
                actions.push(TickAction::PlaySound(Sound::BlockBeaconActivate));
                actions.push(TickAction::ConstructBeacon(self.trigger_construct_beacon(levels)));
            } else if was_active && !is_active {
                actions.push(TickAction::PlaySound(Sound::BlockBeaconDeactivate));
            }
        }
        assert(actions@ =~= before + change_actions(self@, finished, levels));
    }

    /// Concludes a tick that scanned as far as `scan` and, if it had to measure the pyramid,
    /// found `measured` layers.
    pub fn settle(&mut self, world: &WorldInfo, scan: ColumnScan, measured: i32) -> (actions: Vec<
        TickAction<'a>,
    >)
        requires
            world.min_y > i32::MIN,
            pulses(*world) && old(self)@.beam_active ==> measured <= MAX_LEVELS,
        ensures
            final(self)@ == ticked(old(self)@, *world, scan, measured),
            actions@ == tick_actions(old(self)@, *world, scan, measured),
    {
        let previous_levels: i32 = self.levels;
        let levels: i32 = if self.measures(world) {
            measured
        } else {
            previous_levels
        };
        let finished = scan.last_check_y >= world.surface_y;

        let mut actions: Vec<TickAction<'a>> = Vec::new();
        if self.measures(world) {
            self.push_pulse(world, levels, &mut actions);
        }
        self.push_change(finished, levels, &mut actions);
        if self.play_select_sound {
            actions.push(TickAction::PlaySound(Sound::BlockBeaconPowerSelect));
        }
        assert(actions@ =~= tick_actions(self@, *world, scan, measured));

        if levels != previous_levels {
            self.levels = levels;
            self.mark_dirty();
        }
        self.checking_beam_blocked = scan.cut || (self.last_check_y >= self.position.y
            && self.checking_beam_blocked);
        if finished {
            self.beam_active = !self.checking_beam_blocked;
            self.last_check_y = world.min_y - 1;
        } else {
            self.last_check_y = scan.last_check_y;
        }
        self.play_select_sound = false;
        actions
    }

    /// Whether a tick in that world measures the pyramid.
    pub fn measures(&self, world: &WorldInfo) -> (measures: bool)
        ensures
            measures == (pulses(*world) && self@.beam_active),
    {
        world.age % PULSE_TICKS == 0 && self.beam_active
    }

    /// One tick. `block_at` names the blocks of the column above the beacon, and is asked for the
    /// next of them; `is_base` tells whether the block at a position can be part of a pyramid, and
    /// is asked when the pyramid is measured. The caller performs the actions in the order in which
    /// they are returned.
    pub fn tick<F: Fn(BlockPos) -> Block, G: Fn(BlockPos) -> bool>(
        &mut self,
        world: &WorldInfo,
        block_at: &F,
        is_base: &G,
    ) -> (actions: Vec<TickAction<'a>>)
        requires
            world.min_y > i32::MIN,
            pulses(*world) && old(self)@.beam_active ==> has_room(old(self)@.position),
            forall|y: int| #[trigger]
                scan_asks(
                    *block_at,
                    old(self)@.position,
                    scan_start(old(self)@),
                    world.surface_y as int,
                    y,
                ) ==> call_requires(*block_at, (above(old(self)@.position, y),)),
            pulses(*world) && old(self)@.beam_active ==> forall|step: int, cell: BlockPos| #[trigger]
                measuring_asks(
                    *is_base,
                    old(self)@.position,
                    world.min_y as int,
                    step,
                    cell,
                ) ==> call_requires(*is_base, (cell,)),
        ensures
            tick_result(old(self)@, *world, *block_at, *is_base, final(self)@, actions@),
    {
        let pos = self.position;
        let last_check_y: i32 = if self.last_check_y < pos.y {
            pos.y - 1
        } else {
            self.last_check_y
        };
        assert(last_check_y == scan_start(self@));
        let scan = scan_column(block_at, pos, last_check_y, world.surface_y);
        let measured: i32 = if self.measures(world) {
            update_base(is_base, pos, world.min_y)
        } else {
            self.levels
        };
        assert(tick_reads(self@, *world, *block_at, *is_base, scan, measured));
        self.settle(world, scan, measured)
    }
}

/// A beacon after property `index` was set to `value`.
pub open spec fn property_set(beacon: BeaconView, index: int, value: i32) -> BeaconView {
    let effect = encoded(granted(decoded(beacon.registry, value as int))) as i32;
    if index == DATA_LEVELS {
        BeaconView { levels: value, dirty: true, ..beacon }
    } else if index == DATA_PRIMARY {
        BeaconView {
            primary_effect: effect,
            play_select_sound: beacon.play_select_sound || beacon.beam_active,
            dirty: true,
            ..beacon
        }
    } else if index == DATA_SECONDARY {
        BeaconView { secondary_effect: effect, dirty: true, ..beacon }
    } else {
        beacon
    }
}

/// Property `index` of a beacon.
pub open spec fn property(beacon: BeaconView, index: int) -> i32 {
    if index == DATA_LEVELS {
        beacon.levels
    } else if index == DATA_PRIMARY {
        beacon.primary_effect
    } else if index == DATA_SECONDARY {
        beacon.secondary_effect
    } else {
        0
    }
}

impl<'a> PropertyDelegate for BeaconBlockEntity<'a> {
    type State = BeaconView;

    open spec fn state(&self) -> BeaconView {
        self@
    }

    open spec fn property_of(state: BeaconView, index: int) -> i32 {
        property(state, index)
    }

    open spec fn with_property(state: BeaconView, index: int, value: i32) -> BeaconView {
        property_set(state, index, value)
    }

    open spec fn properties() -> int {
        NUM_DATA_VALUES as int
    }

    fn get_property(&self, index: i32) -> (value: i32) {
        match index {
            DATA_LEVELS => self.levels,
            DATA_PRIMARY => self.primary_effect,
            DATA_SECONDARY => self.secondary_effect,
            _ => 0,
        }
    }

    fn set_property(&mut self, index: i32, value: i32) {
        match index {
            DATA_LEVELS => {
                self.levels = value;
            },
            DATA_PRIMARY => {
                if self.beam_active {
                    self.play_select_sound = true;
                }
                self.primary_effect =
                encode_effect(filter_effect(decode_effect(self.registry, value)));
            },
            DATA_SECONDARY => {
                self.secondary_effect =
                encode_effect(filter_effect(decode_effect(self.registry, value)));
            },
            _ => return ,
        }
        self.mark_dirty();
    }

    fn get_properties_size(&self) -> (size: i32) {
        NUM_DATA_VALUES
    }
}

/// A copy of an optional string.
fn copied(string: Option<&String>) -> (copy: Option<String>)
    ensures
        match string {
            None => copy is None,
            Some(s) => text(copy) == Some(s@),
        },
{
    match string {
        None => None,
        Some(s) => Some(s.clone()),
    }
}

/// An effect as beacons give it.
fn new_effect<'a>(effect_type: &'a StatusEffect, duration: i32, amplifier: u8) -> (effect: Effect<
    'a,
>)
    ensures
        effect == (Effect {
            effect_type,
            duration,
            amplifier,
            ambient: true,
            show_particles: true,
            show_icon: true,
            blend: false,
        }),
{
    Effect {
        effect_type,
        duration,
        amplifier,
        ambient: true,
        show_particles: true,
        show_icon: true,
        blend: false,
    }
}

} // verus!
