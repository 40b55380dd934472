//! The declared schema of a player state, and what a binding of it holds.

use vstd::prelude::*;

verus! {

/// The number of item slots in a player's equipment.
pub const ITEM_SLOTS: usize = 5;

/// The item slot that holds the sword level.
pub const SWORD_SLOT: usize = 2;

/// The highest sword level that the validator accepts.
pub const MAX_SWORD_LEVEL: u32 = 20;

/// The envelope of a request: the player state as base64 text.
#[derive(Debug, Clone, PartialEq, Eq)]
pub struct EncodedEnvelope {
    pub player_state: String,
}

impl View for EncodedEnvelope {
    type V = Seq<char>;

    open spec fn view(&self) -> Seq<char> {
        self.player_state@
    }
}

/// How the binder treats fields beyond the declared ones.
#[derive(Debug, Clone, Copy, PartialEq, Eq, Structural)]
pub enum Mode {
    /// Fields beyond the declared ones are admitted, and two of them,
    /// `isAdmin` and `gold`, are read into the binding.
    Permissive,
    /// Any field beyond the declared ones fails the binding.
    Strict,
}

/// Where a player stands.
#[derive(Debug, Clone, PartialEq, Eq)]
pub struct Location {
    pub x: i32,
    pub y: i32,
    pub zone: String,
}

/// A player's equipment: one item identifier per slot.
#[derive(Debug, Clone, PartialEq, Eq)]
pub struct Equipment {
    pub items: [u32; 5],
}

/// The declared schema: the only fields that the application may trust.
#[derive(Debug, Clone, PartialEq, Eq)]
pub struct PlayerState {
    pub equipment: Equipment,
    pub location: Location,
}

/// The two optional fields that the permissive schema admits beside the
/// declared ones, as a sender chose to set them.
#[derive(Debug, Clone, Copy, PartialEq, Eq, Structural)]
pub struct UndeclaredAttributes {
    pub is_admin: Option<bool>,
    pub gold: Option<u32>,
}

/// What a successful binding yields: the declared state, and the optional
/// fields that came with it. A strict binding never holds any of the
/// latter.
#[derive(Debug, Clone, PartialEq, Eq)]
pub struct Binding {
    pub state: PlayerState,
    pub undeclared: UndeclaredAttributes,
}

/// The model of a `Location`.
pub struct LocationView {
    pub x: i32,
    pub y: i32,
    pub zone: Seq<char>,
}

/// The model of a `PlayerState`: the five item identifiers and the
/// location.
pub struct PlayerStateView {
    pub items: Seq<u32>,
    pub location: LocationView,
}

/// The model of a `Binding`.
pub struct BindingView {
    pub state: PlayerStateView,
    pub undeclared: UndeclaredAttributes,
}

impl View for Location {
    type V = LocationView;

    open spec fn view(&self) -> LocationView {
        LocationView { x: self.x, y: self.y, zone: self.zone@ }
    }
}

impl View for PlayerState {
    type V = PlayerStateView;

    open spec fn view(&self) -> PlayerStateView {
        PlayerStateView { items: self.equipment.items@, location: self.location@ }
    }
}

impl View for Binding {
    type V = BindingView;

    open spec fn view(&self) -> BindingView {
        BindingView { state: self.state@, undeclared: self.undeclared }
    }
}

impl UndeclaredAttributes {
    /// No optional field set.
    pub open spec fn none() -> UndeclaredAttributes {
        UndeclaredAttributes { is_admin: None, gold: None }
    }
}

impl PlayerStateView {
    /// The sword level: the item in the sword slot.
    pub open spec fn sword_level(self) -> u32
        recommends
            self.items.len() == ITEM_SLOTS,
    {
        self.items[SWORD_SLOT as int]
    }
}

impl PlayerState {
    /// The sword level: the item in the sword slot.
    pub fn sword_level(&self) -> (level: u32)
        ensures
            level == self@.sword_level(),
    {
        self.equipment.items[SWORD_SLOT]
    }
}

} // verus!
