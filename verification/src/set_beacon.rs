//! The request of a client to set the effects of the beacon whose menu it has open.
use vstd::prelude::*;

use crate::effect::{
    effect_with_id, lemma_found_by_id, lemma_ids_are_u16, EffectRegistry, StatusEffect,
};
use crate::property::PropertyDelegate;
use crate::screen::BeaconScreenHandler;

verus! {

/// The request: the registry ids of the effects.
#[derive(Debug, Clone, Copy)]
pub struct SSetBeacon {
    pub primary_effect: Option<i32>,
    pub secondary_effect: Option<i32>,
}

/// The menu that a player has open.
#[derive(Debug)]
pub enum CurrentScreen<D: PropertyDelegate> {
    Beacon(BeaconScreenHandler<D>),
    Other,
}

/// What comes of a request.
#[derive(Debug, Clone, Copy, PartialEq, Eq, Structural)]
pub enum SetBeaconOutcome {
    /// The effects are set; the contents of the menu are sent to the client.
    Updated,
    /// The player has no beacon menu open; the request is dropped.
    InvalidMenu,
    /// The request is malformed or not allowed; the client is disconnected.
    Kick,
}

/// The translation key of the message with which a client is disconnected.
pub const KICK_MESSAGE: &'static str = "multiplayer.disconnect.generic";

/// The connection of a client that knows the effects of `registry`.
#[derive(Debug)]
pub struct JavaClient<'a> {
    pub registry: &'a EffectRegistry,
}

/// The effect that `id` asks for: `None` is no effect; an id that is not a status effect is
/// malformed.
pub open spec fn requested<'a>(registry: Seq<StatusEffect>, id: Option<i32>) -> Result<
    Option<&'a StatusEffect>,
    (),
> {
    match id {
        None => Ok(None),
        Some(id) => match effect_with_id(registry, id as int) {
            None => Err(()),
            Some(effect) => Ok(Some(effect)),
        },
    }
}

impl<'a> JavaClient<'a> {
    fn decode(&self, id: Option<i32>) -> (effect: Result<Option<&'a StatusEffect>, ()>)
        ensures
            effect == requested(self.registry@, id),
    {
        let id: i32 = match id {
            None => return Ok(None),
            Some(id) => id,
        };
        if id < 0 || id > 0xffff {
            proof {
                lemma_ids_are_u16(self.registry@, id as int);
            }
            return Err(());
        }
        match self.registry.from_id(id as u16) {
            None => Err(()),
            Some(effect) => Ok(Some(effect)),
        }
    }

    /// Answers a request of the client to set the effects of a beacon.
    pub fn handle_set_beacon<D: PropertyDelegate>(
        &self,
        screen: &mut CurrentScreen<D>,
        packet: &SSetBeacon,
    ) -> (outcome: SetBeaconOutcome)
        ensures
            match (
                requested(self.registry@, packet.primary_effect),
                requested(self.registry@, packet.secondary_effect),
            ) {
                (Ok(primary), Ok(secondary)) => match *old(screen) {
                    CurrentScreen::Other => {
                        &&& outcome == SetBeaconOutcome::InvalidMenu
                        &&& *final(screen) == *old(screen)
                    },
                    CurrentScreen::Beacon(menu) => {
                        &&& outcome == (if menu.may_update(primary, secondary) {
                            SetBeaconOutcome::Updated
                        } else {
                            SetBeaconOutcome::Kick
                        })
                        &&& outcome == SetBeaconOutcome::Kick ==> *final(screen) == *old(screen)
                        &&& outcome == SetBeaconOutcome::Updated ==> {
                            &&& *final(screen) matches CurrentScreen::Beacon(after)
                            &&& after.beacon_data.state() == menu.updated_data(primary, secondary)
                            &&& after.payment.item == menu.payment.item
                            &&& after.payment.item_count == menu.payment.item_count - 1
                            &&& after == (BeaconScreenHandler {
                                payment: after.payment,
                                beacon_data: after.beacon_data,
                                ..menu
                            })
                        }
                    },
                },
                _ => outcome == SetBeaconOutcome::Kick && *final(screen) == *old(screen),
            },
    {
        let valid = match (self.decode(packet.primary_effect), self.decode(packet.secondary_effect)) {
            (Ok(primary), Ok(secondary)) => match screen {
                CurrentScreen::Beacon(menu) => menu.update_effects(primary, secondary),
                CurrentScreen::Other => return SetBeaconOutcome::InvalidMenu,
            },
            _ => false,
        };
        if valid {
            SetBeaconOutcome::Updated
        } else {
            SetBeaconOutcome::Kick
        }
    }
}

/// A request stands for the effect that is registered under its id. One whose id is registered
/// for none is malformed, whatever else it asks for.
pub proof fn law_requests_name_registered_effects(registry: Seq<StatusEffect>, id: i32)
    ensures
        match requested(registry, Some(id)) {
            Ok(Some(effect)) => registry.contains(*effect) && effect.id == id,
            Ok(None) => false,
            Err(_) => forall|i: int| 0 <= i < registry.len() ==> (#[trigger] registry[i]).id != id,
        },
        requested(registry, None) == Ok::<Option<&StatusEffect>, ()>(None),
{
    lemma_found_by_id(registry, id as int);
}

} // verus!
