//! What the operations on effects give, told by registry ids and numbers.
use vstd::prelude::*;

use crate::effect::{
    beacon_effects, decode_effect, distinct, effect_with_id, effect_with_name, encode_effect,
    filter_effect, required_levels, validate_effects, EffectRegistry, StatusEffect,
};

verus! {

/// A registry takes effects in if and only if no two share an id and no two share a name, and then
/// holds just those.
pub proof fn law_registry_holds_distinct_effects(
    effects: Vec<StatusEffect>,
    registry: Option<EffectRegistry>,
)
    requires
        call_ensures(EffectRegistry::new, (effects,), registry),
    ensures
        registry is Some <==> forall|i: int, j: int|
            0 <= i < effects@.len() && 0 <= j < effects@.len() && i != j ==> (
            #[trigger] effects@[i]).id != (#[trigger] effects@[j]).id
                && effects@[i].minecraft_name@ != effects@[j].minecraft_name@,
        registry matches Some(r) ==> r@ == effects@,
{
    if distinct(effects@) {
        assert forall|i: int, j: int|
            0 <= i < effects@.len() && 0 <= j < effects@.len() && i != j implies (
        #[trigger] effects@[i]).id != (#[trigger] effects@[j]).id
            && effects@[i].minecraft_name@ != effects@[j].minecraft_name@ by {
            if i > j {
                assert(effects@[j].id != effects@[i].id);
            }
        }
    }
}

/// The first effect of an id is the one that is looked up by it.
pub(crate) proof fn lemma_first_by_id(effects: Seq<StatusEffect>, id: int)
    ensures
        match effect_with_id(effects, id) {
            Some(e) => e.id == id && exists|i: int|
                0 <= i < effects.len() && #[trigger] effects[i] == *e && forall|j: int|
                    0 <= j < i ==> (#[trigger] effects[j]).id != id,
            None => forall|i: int| 0 <= i < effects.len() ==> (#[trigger] effects[i]).id != id,
        },
    decreases effects.len(),
{
    if effects.len() > 0 {
        let rest = effects.drop_first();
        lemma_first_by_id(rest, id);
        if effects[0].id == id {
            assert(effects[0] == *effect_with_id(effects, id)->0);
        } else {
            if let Some(e) = effect_with_id(rest, id) {
                let i = choose|i: int|
                    0 <= i < rest.len() && #[trigger] rest[i] == *e && forall|j: int|
                        0 <= j < i ==> (#[trigger] rest[j]).id != id;
                assert(effects[i + 1] == *e);
                assert forall|j: int| 0 <= j < i + 1 implies (#[trigger] effects[j]).id != id by {
                    if j > 0 {
                        assert(rest[j - 1] == effects[j]);
                    }
                }
            } else {
                assert forall|j: int| 0 <= j < effects.len() implies (#[trigger] effects[j]).id
                    != id by {
                    if j > 0 {
                        assert(rest[j - 1] == effects[j]);
                    }
                }
            }
        }
    }
}

/// The first effect of a name is the one that is looked up by it.
pub(crate) proof fn lemma_first_by_name(effects: Seq<StatusEffect>, name: Seq<char>)
    ensures
        match effect_with_name(effects, name) {
            Some(e) => e.minecraft_name@ == name && exists|i: int|
                0 <= i < effects.len() && #[trigger] effects[i] == *e && forall|j: int|
                    0 <= j < i ==> (#[trigger] effects[j]).minecraft_name@ != name,
            None => forall|i: int|
                0 <= i < effects.len() ==> (#[trigger] effects[i]).minecraft_name@ != name,
        },
    decreases effects.len(),
{
    if effects.len() > 0 {
        let rest = effects.drop_first();
        lemma_first_by_name(rest, name);
        if effects[0].minecraft_name@ == name {
            assert(effects[0] == *effect_with_name(effects, name)->0);
        } else {
            if let Some(e) = effect_with_name(rest, name) {
                let i = choose|i: int|
                    0 <= i < rest.len() && #[trigger] rest[i] == *e && forall|j: int|
                        0 <= j < i ==> (#[trigger] rest[j]).minecraft_name@ != name;
                assert(effects[i + 1] == *e);
                assert forall|j: int| 0 <= j < i + 1 implies (
                #[trigger] effects[j]).minecraft_name@ != name by {
                    if j > 0 {
                        assert(rest[j - 1] == effects[j]);
                    }
                }
            } else {
                assert forall|j: int| 0 <= j < effects.len() implies (
                #[trigger] effects[j]).minecraft_name@ != name by {
                    if j > 0 {
                        assert(rest[j - 1] == effects[j]);
                    }
                }
            }
        }
    }
}

/// A lookup by id finds the first registered effect that has the id, and none only if none has it.
pub proof fn law_lookup_by_id_is_complete(
    registry: &EffectRegistry,
    id: u16,
    found: Option<&StatusEffect>,
)
    requires
        call_ensures(EffectRegistry::from_id, (registry, id), found),
    ensures
        match found {
            Some(e) => e.id == id && exists|i: int|
                0 <= i < registry@.len() && #[trigger] registry@[i] == *e && forall|j: int|
                    0 <= j < i ==> (#[trigger] registry@[j]).id != id,
            None => forall|i: int| 0 <= i < registry@.len() ==> (#[trigger] registry@[i]).id != id,
        },
{
    lemma_first_by_id(registry@, id as int);
}

/// A lookup by name finds the first registered effect that has the name, and none only if none has
/// it.
pub proof fn law_lookup_by_name_is_complete(
    registry: &EffectRegistry,
    name: &String,
    found: Option<&StatusEffect>,
)
    requires
        call_ensures(EffectRegistry::from_minecraft_name, (registry, name), found),
    ensures
        match found {
            Some(e) => e.minecraft_name@ == name@ && exists|i: int|
                0 <= i < registry@.len() && #[trigger] registry@[i] == *e && forall|j: int|
                    0 <= j < i ==> (#[trigger] registry@[j]).minecraft_name@ != name@,
            None => forall|i: int|
                0 <= i < registry@.len() ==> (#[trigger] registry@[i]).minecraft_name@ != name@,
        },
{
    lemma_first_by_name(registry@, name@);
}

/// The tiers of a beacon: speed and haste, resistance and jump boost, strength, regeneration.
pub proof fn law_tiers_by_id(tiers: Vec<Vec<u16>>)
    requires
        call_ensures(beacon_effects, (), tiers),
    ensures
        tiers@.len() == 4,
        tiers@[0]@ == seq![0u16, 2u16],
        tiers@[1]@ == seq![10u16, 7u16],
        tiers@[2]@ == seq![4u16],
        tiers@[3]@ == seq![9u16],
{
}

/// An effect is carried as its id plus one, and none as zero.
pub proof fn law_encoding_by_id(effect: Option<&StatusEffect>, value: i32)
    requires
        call_ensures(encode_effect, (effect,), value),
    ensures
        match effect {
            None => value == 0,
            Some(e) => value == e.id + 1,
        },
{
}

/// A number stands for the first registered effect whose id is one less, and for none only if no
/// effect has that id.
pub proof fn law_decoding_by_id(
    registry: &EffectRegistry,
    value: i32,
    effect: Option<&StatusEffect>,
)
    requires
        call_ensures(decode_effect, (registry, value), effect),
    ensures
        match effect {
            Some(e) => e.id == value - 1 && exists|i: int|
                0 <= i < registry@.len() && #[trigger] registry@[i] == *e && forall|j: int|
                    0 <= j < i ==> (#[trigger] registry@[j]).id != value - 1,
            None => forall|i: int|
                0 <= i < registry@.len() ==> (#[trigger] registry@[i]).id != value - 1,
        },
{
    lemma_first_by_id(registry@, value - 1);
}

/// The tier that an effect needs, by its id.
pub proof fn law_required_levels_by_id(effect: Option<&StatusEffect>, levels: i32)
    requires
        call_ensures(required_levels, (effect,), levels),
    ensures
        effect is None ==> levels == 0,
        effect matches Some(e) ==> {
            &&& levels == 1 <==> e.id == 0 || e.id == 2
            &&& levels == 2 <==> e.id == 10 || e.id == 7
            &&& levels == 3 <==> e.id == 4
            &&& levels == 4 <==> e.id == 9
            &&& levels == 0x7fff_ffff || 1 <= levels <= 4
        },
{
}

/// The effects that the filter lets through are the six of the tiers.
pub proof fn law_filter_by_id(effect: Option<&StatusEffect>, kept: Option<&StatusEffect>)
    requires
        call_ensures(filter_effect, (effect,), kept),
    ensures
        match effect {
            None => kept is None,
            Some(e) => if e.id == 0 || e.id == 2 || e.id == 4 || e.id == 7 || e.id == 9 || e.id
                == 10 {
                kept == effect
            } else {
                kept is None
            },
        },
{
}

/// Which pairs of effects a beacon may be set to, by their ids: the primary one is none or one of
/// the first three tiers that the pyramid is tall enough for; the secondary one is none or, with
/// a full pyramid, regeneration or the primary one again.
pub proof fn law_validation_by_id(
    primary: Option<&StatusEffect>,
    secondary: Option<&StatusEffect>,
    levels: i32,
    valid: bool,
)
    requires
        call_ensures(validate_effects, (primary, secondary, levels), valid),
    ensures
        valid <==> {
            &&& levels >= 0
            &&& match primary {
                None => true,
                Some(e) => {
                    ||| (e.id == 0 || e.id == 2) && levels >= 1
                    ||| (e.id == 10 || e.id == 7) && levels >= 2
                    ||| e.id == 4 && levels >= 3
                },
            }
            &&& match secondary {
                None => true,
                Some(second) => levels >= 4 && (second.id == 9 || match primary {
                    None => false,
                    Some(first) => first.id == second.id,
                }),
            }
        },
{
}

} // verus!
