//! The game records that the application keeps, and the rules that build them.
pub mod etc;
pub mod info_tables;
pub mod option_blocks;
pub mod path_talents;
pub mod magic_talents;
pub mod character_choices;
pub mod immunities;
pub mod senses;
pub mod speed_traits;
pub mod professions;
pub mod profession_categories;
pub mod spells;
pub mod traditions;
pub mod languages;
pub mod levels;
pub mod paths;
pub mod ancestries;
pub mod characters;
pub mod choice_selections;
pub mod choice_tree;

use vstd::prelude::*;

verus! {
} // verus!
