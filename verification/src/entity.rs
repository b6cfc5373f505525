//! The figures that live in the house: the player and the other entities, by name.
use vstd::prelude::*;

verus! {

/// The unique identifier name of a figure.
#[derive(Debug)]
pub struct Name(
    /// The `Name String`.
    pub String,
);

/// The figures that are added to the world at start: the player and the entities.
pub struct EntityRoster {
    /// The name of the player.
    pub player: Name,
    /// The names of the other entities, in the order in which they are added.
    pub entities: Vec<Name>,
}

/// The names of the other entities.
pub open spec fn entity_names() -> Seq<Seq<char>> {
    seq!["Asmodeus"@, "Entity2"@, "Entity3"@, "Entity4"@]
}

/// The figures that are added to the world: the player, named "Player", and the four entities
/// named by `entity_names`.
pub fn add_entities() -> (roster: EntityRoster)
    ensures
        roster.player.0@ == "Player"@,
        roster.entities@.len() == entity_names().len(),
        forall|i: int| 0 <= i < roster.entities@.len() ==> #[trigger] roster.entities@[i].0@ == entity_names()[i],
{
    let mut entities: Vec<Name> = Vec::new();
    entities.push(Name("Asmodeus".to_owned()));
    entities.push(Name("Entity2".to_owned()));
    entities.push(Name("Entity3".to_owned()));
    entities.push(Name("Entity4".to_owned()));
    EntityRoster { player: Name("Player".to_owned()), entities }
}

} // verus!
