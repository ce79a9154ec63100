//! Data carried by host events.
use vstd::prelude::*;

verus! {

/// A player, as reported with a brick interaction.
#[derive(Debug, Clone, PartialEq)]
pub struct PlayerInteract {
    pub name: String,
    pub id: String,
    pub controller: String,
}

} // verus!
