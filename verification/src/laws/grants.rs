//! What a beacon gives to players, told by registry ids, layers and coordinates.
use vstd::prelude::*;

use crate::beacon::{
    construct_trigger, grant, Advancement, BeaconBlockEntity, BeaconGrant, BeaconView,
    ConstructTrigger,
};
use crate::effect::StatusEffect;
use crate::laws::effects::lemma_first_by_id;
use crate::world::BlockPos;

verus! {

/// What a beacon with `levels` layers gives. There is nothing to give if and only if no registered
/// effect has the primary number, less one, for its id. Players within ten blocks and ten for each
/// layer, on every side of the block, and above it by the height of the world besides, receive the
/// effect with that id, for nine seconds and two for each layer. With four layers it is amplified
/// if both effects are the same, and if not, the secondary effect is given besides.
pub proof fn law_grant_by_layers<'a>(beacon: BeaconView, height: i32, levels: i32)
    requires
        i32::MIN <= (9 + 2 * levels) * 20 <= i32::MAX,
    ensures
        match grant::<'a>(beacon, height as int, levels as int) {
            None => forall|i: int|
                0 <= i < beacon.registry.len() ==> (#[trigger] beacon.registry[i]).id
                    != beacon.primary_effect - 1,
            Some(given) => {
                &&& given.bounds.min_x == beacon.position.x - (10 * levels + 10)
                &&& given.bounds.min_y == beacon.position.y - (10 * levels + 10)
                &&& given.bounds.min_z == beacon.position.z - (10 * levels + 10)
                &&& given.bounds.max_x == beacon.position.x + 1 + (10 * levels + 10)
                &&& given.bounds.max_y == beacon.position.y + 1 + (10 * levels + 10) + height
                &&& given.bounds.max_z == beacon.position.z + 1 + (10 * levels + 10)
                &&& given.primary.effect_type.id == beacon.primary_effect - 1
                &&& beacon.registry.contains(*given.primary.effect_type)
                &&& given.primary.duration == (9 + 2 * levels) * 20
                &&& given.primary.amplifier == (if levels >= 4 && beacon.secondary_effect
                    == beacon.primary_effect {
                    1int
                } else {
                    0
                })
                &&& given.primary.ambient && given.primary.show_particles
                    && given.primary.show_icon && !given.primary.blend
                &&& given.secondary is Some <==> levels >= 4 && beacon.secondary_effect
                    != beacon.primary_effect && exists|i: int|
                    0 <= i < beacon.registry.len() && (#[trigger] beacon.registry[i]).id
                        == beacon.secondary_effect - 1
                &&& given.secondary matches Some(second) ==> {
                    &&& second.effect_type.id == beacon.secondary_effect - 1
                    &&& beacon.registry.contains(*second.effect_type)
                    &&& second.duration == (9 + 2 * levels) * 20
                    &&& second.amplifier == 0
                    &&& second.ambient && second.show_particles && second.show_icon
                        && !second.blend
                }
            },
        },
{
    lemma_first_by_id(beacon.registry, beacon.primary_effect - 1);
    lemma_first_by_id(beacon.registry, beacon.secondary_effect - 1);
}

/// Applying effects gives what the layers, the effects and the place of the beacon call for, and
/// nothing if it has no primary effect.
pub proof fn law_applied_effects_by_layers<'a>(
    beacon: &BeaconBlockEntity<'a>,
    height: i32,
    levels: i32,
    given: Option<BeaconGrant<'a>>,
)
    requires
        call_ensures(BeaconBlockEntity::apply_effects, (beacon, height, levels), given),
        i32::MIN <= (9 + 2 * levels) * 20 <= i32::MAX,
    ensures
        match given {
            None => forall|i: int|
                0 <= i < beacon@.registry.len() ==> (#[trigger] beacon@.registry[i]).id
                    != beacon@.primary_effect - 1,
            Some(given) => {
                &&& given.bounds.min_x == beacon@.position.x - (10 * levels + 10)
                &&& given.bounds.min_y == beacon@.position.y - (10 * levels + 10)
                &&& given.bounds.min_z == beacon@.position.z - (10 * levels + 10)
                &&& given.bounds.max_x == beacon@.position.x + 1 + (10 * levels + 10)
                &&& given.bounds.max_y == beacon@.position.y + 1 + (10 * levels + 10) + height
                &&& given.bounds.max_z == beacon@.position.z + 1 + (10 * levels + 10)
                &&& given.primary.effect_type.id == beacon@.primary_effect - 1
                &&& given.primary.duration == (9 + 2 * levels) * 20
                &&& given.primary.amplifier == (if levels >= 4 && beacon@.secondary_effect
                    == beacon@.primary_effect {
                    1int
                } else {
                    0
                })
                &&& given.primary.ambient && given.primary.show_particles
                    && given.primary.show_icon && !given.primary.blend
                &&& given.secondary is Some <==> levels >= 4 && beacon@.secondary_effect
                    != beacon@.primary_effect && exists|i: int|
                    0 <= i < beacon@.registry.len() && (#[trigger] beacon@.registry[i]).id
                        == beacon@.secondary_effect - 1
                &&& given.secondary matches Some(second) ==> {
                    &&& second.effect_type.id == beacon@.secondary_effect - 1
                    &&& second.duration == (9 + 2 * levels) * 20
                    &&& second.amplifier == 0
                    &&& second.ambient && second.show_particles && second.show_icon
                        && !second.blend
                }
            },
        },
{
    law_grant_by_layers(beacon@, height, levels);
}

/// Applying effects is possible whatever the height, wherever the beacon stands, and for any
/// number of layers whose duration is a number.
pub proof fn law_effects_can_be_applied<'a>(
    beacon: &BeaconBlockEntity<'a>,
    height: i32,
    levels: i32,
)
    requires
        i32::MIN <= (9 + 2 * levels) * 20 <= i32::MAX,
    ensures
        call_requires(BeaconBlockEntity::apply_effects, (beacon, height, levels)),
{
}

/// The effects of a beacon are the registered effects that its two numbers, less one, are the ids
/// of.
pub proof fn law_effects_are_told_by_id<'a>(
    beacon: &BeaconBlockEntity<'a>,
    primary: Option<&'a StatusEffect>,
    secondary: Option<&'a StatusEffect>,
    levels: i32,
)
    requires
        call_ensures(BeaconBlockEntity::primary_effect, (beacon,), primary),
        call_ensures(BeaconBlockEntity::secondary_effect, (beacon,), secondary),
        call_ensures(BeaconBlockEntity::levels, (beacon,), levels),
    ensures
        levels == beacon@.levels,
        match primary {
            None => forall|i: int|
                0 <= i < beacon@.registry.len() ==> (#[trigger] beacon@.registry[i]).id
                    != beacon@.primary_effect - 1,
            Some(e) => e.id == beacon@.primary_effect - 1 && beacon@.registry.contains(*e),
        },
        match secondary {
            None => forall|i: int|
                0 <= i < beacon@.registry.len() ==> (#[trigger] beacon@.registry[i]).id
                    != beacon@.secondary_effect - 1,
            Some(e) => e.id == beacon@.secondary_effect - 1 && beacon@.registry.contains(*e),
        },
{
    lemma_first_by_id(beacon@.registry, beacon@.primary_effect - 1);
    lemma_first_by_id(beacon@.registry, beacon@.secondary_effect - 1);
}

/// The advancements of a beacon that was just lit go to players near it: ten blocks to the sides,
/// nine below and five above. The one for a full beacon takes four layers.
pub proof fn law_advancements_by_layers(position: BlockPos, levels: int)
    ensures
        ({
            let trigger = construct_trigger(position, levels);
            &&& trigger.bounds.min_x == position.x - 10 && trigger.bounds.max_x == position.x + 10
            &&& trigger.bounds.min_y == position.y - 9 && trigger.bounds.max_y == position.y + 5
            &&& trigger.bounds.min_z == position.z - 10 && trigger.bounds.max_z == position.z + 10
            &&& trigger.advancement == Advancement::NetherCreateBeacon
            &&& levels >= 4 ==> trigger.full == Some(Advancement::NetherCreateFullBeacon)
            &&& levels < 4 ==> trigger.full is None
        }),
{
}

/// A beacon with that many layers calls for those advancements.
pub proof fn law_triggered_advancements<'a>(
    beacon: &BeaconBlockEntity<'a>,
    levels: i32,
    trigger: ConstructTrigger,
)
    requires
        call_ensures(BeaconBlockEntity::trigger_construct_beacon, (beacon, levels), trigger),
    ensures
        trigger.bounds.min_x == beacon@.position.x - 10,
        trigger.bounds.max_x == beacon@.position.x + 10,
        trigger.bounds.min_y == beacon@.position.y - 9,
        trigger.bounds.max_y == beacon@.position.y + 5,
        trigger.bounds.min_z == beacon@.position.z - 10,
        trigger.bounds.max_z == beacon@.position.z + 10,
        trigger.advancement == Advancement::NetherCreateBeacon,
        levels >= 4 ==> trigger.full == Some(Advancement::NetherCreateFullBeacon),
        levels < 4 ==> trigger.full is None,
{
    law_advancements_by_layers(beacon@.position, levels as int);
}

} // verus!
