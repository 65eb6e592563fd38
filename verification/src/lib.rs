//! Character-building rules for a tabletop role-playing game: the modifier language that
//! talents and spells carry, the way gained modifiers accumulate, and the import rules for
//! game data.
pub mod text;
pub mod mod_dsl;
pub mod db;
pub mod modifiers;
pub mod result;
pub mod util;
pub mod import;
pub mod ipc;

use vstd::prelude::*;

verus! {
} // verus!
