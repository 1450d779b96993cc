use vstd::prelude::*;

use crate::text::{decimal, push_decimal};

verus! {

/// How a character dashes: in `dash_duration` ms over `dash_distance`.
#[derive(Debug, Clone, Copy, PartialEq, Eq, Structural)]
pub struct CharacterSettings {
    pub dash_duration: u128,
    pub dash_distance: u128,
}

impl Default for CharacterSettings {
    fn default() -> (settings: Self)
        ensures
            settings.dash_duration == 0,
            settings.dash_distance == 0,
    {
        CharacterSettings { dash_duration: 0, dash_distance: 0 }
    }
}

/// The path of the file with the settings of character `id`.
pub open spec fn character_file_path_of(id: u32) -> Seq<char> {
    "../data/character/character_"@ + decimal(id as nat) + ".json"@
}

/// The file that holds the settings of character `id`.
pub fn character_file_path(id: u32) -> (path: String)
    ensures
        path@ == character_file_path_of(id),
{
    let mut path = String::new();
    path.append("../data/character/character_");
    push_decimal(&mut path, id as u128);
    path.append(".json");
    path
}

} // verus!
