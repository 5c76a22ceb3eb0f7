//! Status effects and the rules by which a beacon grants them.
//!
//! An effect travels through menus and saved properties as one number: its registry id plus
//! one, with `0` meaning "no effect".
use vstd::prelude::*;

verus! {

/// Registry id of `minecraft:speed`.
pub const SPEED: u16 = 0;

/// Registry id of `minecraft:haste`.
pub const HASTE: u16 = 2;

/// Registry id of `minecraft:strength`.
pub const STRENGTH: u16 = 4;

/// Registry id of `minecraft:jump_boost`.
pub const JUMP_BOOST: u16 = 7;

/// Registry id of `minecraft:regeneration`.
pub const REGENERATION: u16 = 9;

/// Registry id of `minecraft:resistance`.
pub const RESISTANCE: u16 = 10;

/// A status effect: the number it has in the effect registry and its resource name.
#[derive(Debug)]
pub struct StatusEffect {
    pub id: u16,
    pub minecraft_name: String,
}

/// The status effects that the running game version knows.
#[derive(Debug)]
pub struct EffectRegistry {
    effects: Vec<StatusEffect>,
}

impl View for EffectRegistry {
    type V = Seq<StatusEffect>;

    closed spec fn view(&self) -> Seq<StatusEffect> {
        self.effects@
    }
}

/// No two effects share an id, no two share a name.
pub open spec fn distinct(effects: Seq<StatusEffect>) -> bool {
    forall|i: int, j: int|
        0 <= i < j < effects.len() ==> (#[trigger] effects[i]).id != (#[trigger] effects[j]).id
            && effects[i].minecraft_name@ != effects[j].minecraft_name@
}

/// The first effect of `effects` that has registry id `id`.
pub open spec fn effect_with_id<'a>(effects: Seq<StatusEffect>, id: int) -> Option<&'a StatusEffect>
    decreases effects.len(),
{
    if effects.len() == 0 {
        None
    } else if effects[0].id == id {
        Some(&effects[0])
    } else {
        effect_with_id(effects.drop_first(), id)
    }
}

/// The first effect of `effects` that has resource name `name`.
pub open spec fn effect_with_name<'a>(effects: Seq<StatusEffect>, name: Seq<char>) -> Option<
    &'a StatusEffect,
>
    decreases effects.len(),
{
    if effects.len() == 0 {
        None
    } else if effects[0].minecraft_name@ == name {
        Some(&effects[0])
    } else {
        effect_with_name(effects.drop_first(), name)
    }
}

impl EffectRegistry {
    /// Ids and names each tell the effects apart.
    pub open spec fn well_formed(&self) -> bool {
        distinct(self@)
    }

    /// A registry of `effects`, unless two of them share an id or a name.
    pub fn new(effects: Vec<StatusEffect>) -> (registry: Option<Self>)
        ensures
            registry is Some <==> distinct(effects@),
            registry matches Some(r) ==> r@ == effects@ && r.well_formed(),
    {
        let mut j: usize = 0;
        while j < effects.len()
            invariant
                j <= effects@.len(),
                distinct(effects@.take(j as int)),
            decreases effects@.len() - j,
        {
            let mut i: usize = 0;
            while i < j
                invariant
                    i <= j < effects@.len(),
                    forall|k: int|
                        0 <= k < i ==> (#[trigger] effects@[k]).id != effects@[j as int].id
                            && effects@[k].minecraft_name@ != effects@[j as int].minecraft_name@,
                decreases j - i,
            {
                if effects[i].id == effects[j].id
                    || effects[i].minecraft_name == effects[j].minecraft_name {
                    assert(!distinct(effects@));
                    return None;
                }
                i += 1;
            }
            assert forall|k: int, l: int| 0 <= k < l < j + 1 implies (#[trigger] effects@.take(
                j + 1,
            )[k]).id != (#[trigger] effects@.take(j + 1)[l]).id && effects@.take(
                j + 1,
            )[k].minecraft_name@ != effects@.take(j + 1)[l].minecraft_name@ by {
                if l < j {
                    assert(effects@.take(j as int)[k] == effects@[k]);
                    assert(effects@.take(j as int)[l] == effects@[l]);
                }
            }
            j += 1;
        }
        assert(effects@.take(j as int) =~= effects@);
        Some(EffectRegistry { effects })
    }

    /// The effect with registry id `id`.
    pub fn from_id(&self, id: u16) -> (found: Option<&StatusEffect>)
        ensures
            found == effect_with_id(self@, id as int),
    {
        let mut i: usize = 0;
        assert(self@.skip(0) =~= self@);
        while i < self.effects.len()
            invariant
                i <= self@.len(),
                effect_with_id(self@, id as int) == effect_with_id(self@.skip(i as int), id as int),
            decreases self@.len() - i,
        {
            assert(self@.skip(i as int).drop_first() =~= self@.skip(i + 1));
            if self.effects[i].id == id {
                return Some(&self.effects[i]);
            }
            i += 1;
        }
        None
    }

    /// The effect with resource name `name`.
    pub fn from_minecraft_name(&self, name: &String) -> (found: Option<&StatusEffect>)
        ensures
            found == effect_with_name(self@, name@),
    {
        let mut i: usize = 0;
        assert(self@.skip(0) =~= self@);
        while i < self.effects.len()
            invariant
                i <= self@.len(),
                effect_with_name(self@, name@) == effect_with_name(self@.skip(i as int), name@),
            decreases self@.len() - i,
        {
            assert(self@.skip(i as int).drop_first() =~= self@.skip(i + 1));
            if self.effects[i].minecraft_name == *name {
                return Some(&self.effects[i]);
            }
            i += 1;
        }
        None
    }
}

/// The tier at which a beacon grants the effect with registry id `id`, if any.
pub open spec fn tier_of(id: u16) -> Option<int> {
    if id == SPEED || id == HASTE {
        Some(1)
    } else if id == RESISTANCE || id == JUMP_BOOST {
        Some(2)
    } else if id == STRENGTH {
        Some(3)
    } else if id == REGENERATION {
        Some(4)
    } else {
        None
    }
}

/// The number of beacon tiers.
pub const TIERS: i32 = 4;

/// The ids of the effects selectable per beacon tier; tier `n` is at index `n - 1`.
pub fn beacon_effects() -> (tiers: Vec<Vec<u16>>)
    ensures
        tiers@.len() == TIERS,
        tiers@[0]@ == seq![SPEED, HASTE],
        tiers@[1]@ == seq![RESISTANCE, JUMP_BOOST],
        tiers@[2]@ == seq![STRENGTH],
        tiers@[3]@ == seq![REGENERATION],
        forall|i: int, id: u16|
            0 <= i < TIERS ==> (#[trigger] tiers@[i]@.contains(id) <==> tier_of(id) == Some(i + 1)),
{
    let tiers: Vec<Vec<u16>> = vec![
        vec![SPEED, HASTE],
        vec![RESISTANCE, JUMP_BOOST],
        vec![STRENGTH],
        vec![REGENERATION],
    ];
    proof {
        assert(tiers@[0]@ =~= seq![SPEED, HASTE]);
        assert(tiers@[1]@ =~= seq![RESISTANCE, JUMP_BOOST]);
        assert(tiers@[2]@ =~= seq![STRENGTH]);
        assert(tiers@[3]@ =~= seq![REGENERATION]);
        assert forall|i: int, id: u16| 0 <= i < TIERS implies (#[trigger] tiers@[i]@.contains(id)
            <==> tier_of(id) == Some(i + 1)) by {
            let row = tiers@[i]@;
            if tier_of(id) == Some(i + 1) {
                if row[0] != id {
                    assert(row[1] == id);
                }
            }
        }
    }
    tiers
}

/// The number by which menus and properties carry an effect.
pub open spec fn encoded(effect: Option<&StatusEffect>) -> int {
    match effect {
        None => 0,
        Some(e) => e.id + 1,
    }
}

/// The effect that the number `value` stands for among `effects`.
pub open spec fn decoded<'a>(effects: Seq<StatusEffect>, value: int) -> Option<&'a StatusEffect> {
    effect_with_id(effects, value - 1)
}

/// The beacon tier that `effect` needs.
pub open spec fn required(effect: Option<&StatusEffect>) -> int {
    match effect {
        None => 0,
        Some(e) => match tier_of(e.id) {
            Some(tier) => tier,
            None => i32::MAX as int,
        },
    }
}

/// `effect`, if it is one that a beacon grants at some tier.
pub open spec fn granted<'a>(effect: Option<&'a StatusEffect>) -> Option<&'a StatusEffect> {
    match effect {
        Some(e) if tier_of(e.id) is Some => Some(e),
        _ => None,
    }
}

/// Whether a beacon with `levels` pyramid layers may be set to the two effects.
pub open spec fn effects_valid(
    primary: Option<&StatusEffect>,
    secondary: Option<&StatusEffect>,
    levels: int,
) -> bool {
    &&& required(primary) <= levels
    &&& required(secondary) <= levels
    &&& required(primary) < TIERS
    &&& secondary matches Some(second) ==> {
        &&& levels >= TIERS
        &&& granted(secondary) == secondary
        &&& required(secondary) >= TIERS || (primary matches Some(first) && first.id == second.id)
    }
}

/// Encodes an effect as `registry id + 1`, and no effect as `0`.
pub fn encode_effect(effect: Option<&StatusEffect>) -> (value: i32)
    ensures
        value == encoded(effect),
{
    match effect {
        None => 0,
        Some(e) => e.id as i32 + 1,
    }
}

/// The effect of `registry` that [`encode_effect`] encodes as `value`.
pub fn decode_effect(registry: &EffectRegistry, value: i32) -> (effect: Option<&StatusEffect>)
    ensures
        effect == decoded(registry@, value as int),
{
    if value <= 0 || value - 1 > 0xffff {
        proof {
            lemma_ids_are_u16(registry@, value - 1);
        }
        return None;
    }
    registry.from_id((value - 1) as u16)
}

/// Beacon tier needed for an effect; `0` for none, `i32::MAX` for effects a beacon cannot grant.
pub fn required_levels(effect: Option<&StatusEffect>) -> (levels: i32)
    ensures
        levels == required(effect),
{
    let id: u16 = match effect {
        None => return 0,
        Some(e) => e.id,
    };
    let tiers = beacon_effects();
    let mut tier: usize = 0;
    while tier < tiers.len()
        invariant
            tiers@.len() == TIERS,
            tier <= TIERS,
            effect matches Some(e) && e.id == id,
            forall|t: int, other: u16|
                0 <= t < TIERS ==> (#[trigger] tiers@[t]@.contains(other) <==> tier_of(other) == Some(
                    t + 1,
                )),
            forall|t: int| 1 <= t <= tier ==> tier_of(id) != Some(t),
        decreases tiers.len() - tier,
    {
        let mut i: usize = 0;
        while i < tiers[tier].len()
            invariant
                tier < tiers@.len() == TIERS,
                effect matches Some(e) && e.id == id,
                i <= tiers@[tier as int]@.len(),
                forall|j: int| 0 <= j < i ==> tiers@[tier as int]@[j] != id,
                forall|t: int, other: u16|
                    0 <= t < TIERS ==> (#[trigger] tiers@[t]@.contains(other) <==> tier_of(other) == Some(
                        t + 1,
                    )),
            decreases tiers@[tier as int]@.len() - i,
        {
            if tiers[tier][i] == id {
                assert(tiers@[tier as int]@.contains(id));
                return tier as i32 + 1;
            }
            i += 1;
        }
        assert(!tiers@[tier as int]@.contains(id));
        tier += 1;
    }
    i32::MAX
}

/// Drops effects a beacon can never grant.
pub fn filter_effect<'a>(effect: Option<&'a StatusEffect>) -> (kept: Option<&'a StatusEffect>)
    ensures
        kept == granted(effect),
{
    if required_levels(effect) <= TIERS {
        effect
    } else {
        None
    }
}

/// Whether a beacon with `levels` layers may be set to `primary` and `secondary`.
pub fn validate_effects(
    primary: Option<&StatusEffect>,
    secondary: Option<&StatusEffect>,
    levels: i32,
) -> (valid: bool)
    ensures
        valid == effects_valid(primary, secondary, levels as int),
{
    if secondary.is_some() && levels < 4 {
        return false;
    }
    let primary_level = required_levels(primary);
    let secondary_level = required_levels(secondary);
    if primary_level > levels || secondary_level > levels || primary_level >= 4 {
        return false;
    }
    if secondary_level == 0 || secondary_level == 4 {
        return true;
    }
    if secondary_level > 4 {
        return false;
    }
    match (primary, secondary) {
        (Some(first), Some(second)) => first.id == second.id,
        (None, None) => true,
        _ => false,
    }
}

/// An id that is no 16 bit number belongs to no effect.
pub(crate) proof fn lemma_ids_are_u16(effects: Seq<StatusEffect>, id: int)
    requires
        !(0 <= id <= u16::MAX),
    ensures
        effect_with_id(effects, id) is None,
    decreases effects.len(),
{
    if effects.len() > 0 {
        lemma_ids_are_u16(effects.drop_first(), id);
    }
}

/// The effect that a lookup by id finds is registered, and has that id.
pub(crate) proof fn lemma_found_by_id(effects: Seq<StatusEffect>, id: int)
    ensures
        effect_with_id(effects, id) matches Some(e) ==> effects.contains(*e) && e.id == id,
        effect_with_id(effects, id) is None ==> forall|i: int|
            0 <= i < effects.len() ==> (#[trigger] effects[i]).id != id,
    decreases effects.len(),
{
    if effects.len() > 0 {
        let rest = effects.drop_first();
        lemma_found_by_id(rest, id);
        if effects[0].id != id {
            if let Some(e) = effect_with_id(effects, id) {
                let i = choose|i: int| 0 <= i < rest.len() && rest[i] == *e;
                assert(effects[i + 1] == *e);
            } else {
                assert forall|i: int| 0 <= i < effects.len() implies (#[trigger] effects[i]).id
                    != id by {
                    if i > 0 {
                        assert(rest[i - 1] == effects[i]);
                    }
                }
            }
        } else {
            assert(effects[0] == *effect_with_id(effects, id)->0);
        }
    }
}

/// The effect that a lookup by name finds is registered, and has that name.
pub(crate) proof fn lemma_found_by_name(effects: Seq<StatusEffect>, name: Seq<char>)
    ensures
        effect_with_name(effects, name) matches Some(e) ==> effects.contains(*e)
            && e.minecraft_name@ == name,
        effect_with_name(effects, name) is None ==> forall|i: int|
            0 <= i < effects.len() ==> (#[trigger] effects[i]).minecraft_name@ != name,
    decreases effects.len(),
{
    if effects.len() > 0 {
        let rest = effects.drop_first();
        lemma_found_by_name(rest, name);
        if effects[0].minecraft_name@ != name {
            if let Some(e) = effect_with_name(effects, name) {
                let i = choose|i: int| 0 <= i < rest.len() && rest[i] == *e;
                assert(effects[i + 1] == *e);
            } else {
                assert forall|i: int|
                    0 <= i < effects.len() implies (#[trigger] effects[i]).minecraft_name@
                    != name by {
                    if i > 0 {
                        assert(rest[i - 1] == effects[i]);
                    }
                }
            }
        } else {
            assert(effects[0] == *effect_with_name(effects, name)->0);
        }
    }
}

/// Decoding undoes encoding: a registered effect is found again by its number.
pub proof fn law_encoding_round_trips(effects: Seq<StatusEffect>, effect: &StatusEffect)
    requires
        distinct(effects),
        effects.contains(*effect),
    ensures
        decoded(effects, encoded(Some(effect))) == Some(effect),
{
    lemma_found_by_id(effects, effect.id as int);
    let i = choose|i: int| 0 <= i < effects.len() && effects[i] == *effect;
    let found = effect_with_id(effects, effect.id as int)->0;
    let j = choose|j: int| 0 <= j < effects.len() && effects[j] == *found;
    assert(i == j);
}

/// Encoding undoes decoding: a number that stands for an effect is the number of that effect.
/// `0` and below stand for none.
pub proof fn law_decoding_round_trips(effects: Seq<StatusEffect>, value: int)
    ensures
        decoded(effects, value) matches Some(e) ==> encoded(Some(e)) == value,
        value <= 0 ==> decoded(effects, value) is None,
        encoded(None) == 0,
{
    lemma_found_by_id(effects, value - 1);
    if value <= 0 {
        lemma_ids_are_u16(effects, value - 1);
    }
}

/// A registered effect is found again by its name.
pub proof fn law_names_round_trip(effects: Seq<StatusEffect>, effect: &StatusEffect)
    requires
        distinct(effects),
        effects.contains(*effect),
    ensures
        effect_with_name(effects, effect.minecraft_name@) == Some(effect),
{
    lemma_found_by_name(effects, effect.minecraft_name@);
    let i = choose|i: int| 0 <= i < effects.len() && effects[i] == *effect;
    let found = effect_with_name(effects, effect.minecraft_name@)->0;
    let j = choose|j: int| 0 <= j < effects.len() && effects[j] == *found;
    assert(i == j);
}

/// The filter keeps an effect if and only if some tier grants it, and filtering again changes
/// nothing.
pub proof fn law_filter(effect: Option<&StatusEffect>)
    ensures
        granted(effect) == (if required(effect) <= TIERS {
            effect
        } else {
            None
        }),
        granted(granted(effect)) == granted(effect),
        required(effect) == 0 <==> effect is None,
{
}

/// A taller pyramid allows whatever a lower one does.
pub proof fn law_validation_is_monotonic(
    primary: Option<&StatusEffect>,
    secondary: Option<&StatusEffect>,
    levels: int,
    more: int,
)
    requires
        levels <= more,
        effects_valid(primary, secondary, levels),
    ensures
        effects_valid(primary, secondary, more),
{
}

/// A primary effect that is allowed is one that the pyramid is tall enough for. Regeneration and
/// effects that beacons do not grant never are.
pub proof fn law_valid_primary(
    primary: Option<&StatusEffect>,
    secondary: Option<&StatusEffect>,
    levels: int,
)
    requires
        effects_valid(primary, secondary, levels),
    ensures
        primary matches Some(effect) ==> effect.id != REGENERATION && (tier_of(
            effect.id,
        ) matches Some(tier) && tier <= levels),
{
}

/// A secondary effect that is allowed takes a full pyramid, and is regeneration or the primary
/// effect itself.
pub proof fn law_valid_secondary(
    primary: Option<&StatusEffect>,
    secondary: Option<&StatusEffect>,
    levels: int,
)
    requires
        effects_valid(primary, secondary, levels),
    ensures
        secondary matches Some(effect) ==> levels >= TIERS && (effect.id == REGENERATION || (
        primary matches Some(first) && first.id == effect.id)),
{
}

/// With a full pyramid every effect of the first three tiers may be the primary one, alone, with
/// itself, or with regeneration.
pub proof fn law_full_pyramid_allows(primary: &StatusEffect, regeneration: &StatusEffect, levels: int)
    requires
        levels >= TIERS,
        tier_of(primary.id) is Some,
        primary.id != REGENERATION,
        regeneration.id == REGENERATION,
    ensures
        effects_valid(Some(primary), None, levels),
        effects_valid(Some(primary), Some(primary), levels),
        effects_valid(Some(primary), Some(regeneration), levels),
{
}

} // verus!
