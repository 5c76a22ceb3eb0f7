//! Beacons of a Minecraft server, and the Servux plugin channel.

pub mod beacon;
pub mod beam;
pub mod effect;
pub mod laws;
pub mod nbt;
pub mod property;
pub mod pyramid;
pub mod screen;
pub mod servux;
pub mod set_beacon;
pub mod wire;
pub mod world;
