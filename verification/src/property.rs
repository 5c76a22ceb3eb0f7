//! The numbers that a block entity shares with the menus opened on it.
use vstd::prelude::*;

verus! {

/// Index of the power level among the properties of a beacon.
pub const DATA_LEVELS: i32 = 0;

/// Index of the primary effect among the properties of a beacon.
pub const DATA_PRIMARY: i32 = 1;

/// Index of the secondary effect among the properties of a beacon.
pub const DATA_SECONDARY: i32 = 2;

/// The number of properties of a beacon.
pub const NUM_DATA_VALUES: i32 = 3;

/// A holder of numbered properties.
pub trait PropertyDelegate: Sized {
    /// What the properties are read from.
    type State;

    /// The present state.
    spec fn state(&self) -> Self::State;

    /// What property `index` reads in `state`.
    spec fn property_of(state: Self::State, index: int) -> i32;

    /// What becomes of `state` when property `index` is set to `value`.
    spec fn with_property(state: Self::State, index: int, value: i32) -> Self::State;

    /// How many properties there are.
    spec fn properties() -> int;

    /// Reads property `index`.
    fn get_property(&self, index: i32) -> (value: i32)
        ensures
            value == Self::property_of(self.state(), index as int),
    ;

    /// Sets property `index`.
    fn set_property(&mut self, index: i32, value: i32)
        ensures
            final(self).state() == Self::with_property(old(self).state(), index as int, value),
    ;

    /// The number of properties.
    fn get_properties_size(&self) -> (size: i32)
        ensures
            size == Self::properties(),
    ;
}

} // verus!
