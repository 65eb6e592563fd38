//! Small enumerations shared by the game records.
use vstd::prelude::*;
use crate::text::text_is;
use crate::util::{to_lowercase, unicode_lower};

verus! {

/// A creature's size.
#[derive(Debug, Clone, Copy)]
pub enum Size {
    Sm,
    Md,
    Lg,
}

/// The tier of a path: novice (level 1), expert (level 3) or master (level 7).
#[derive(Debug, Clone, Copy, PartialEq, Eq, Structural)]
pub enum PathKind {
    Novice,
    Expert,
    Master,
}

/// When a talent's uses come back. `Never` is the data's `None`.
#[derive(Debug, Clone, Copy)]
pub enum TalentRestore {
    Never,
    LuckEnds,
    Rest,
    Day,
    Hour,
    Minute,
    StartOfNextTurn,
    EndOfNextTurn,
    StartOfRound,
    Special,
}

/// The size a lowercased text names; medium for any other text.
pub open spec fn size_of_lowercase(l: Seq<char>) -> Size {
    if l == "sm"@ {
        Size::Sm
    } else if l == "md"@ {
        Size::Md
    } else if l == "lg"@ {
        Size::Lg
    } else {
        Size::Md
    }
}

impl Size {
    /// The value a lowercased text names.
    pub fn of_lowercase(l: &String) -> (r: Self)
        ensures
            r == size_of_lowercase(l@),
    {
        if text_is(l, "sm") {
            Size::Sm
        } else if text_is(l, "md") {
            Size::Md
        } else if text_is(l, "lg") {
            Size::Lg
        } else {
            Size::Md
        }
    }
}

impl From<String> for Size {
    fn from(value: String) -> (r: Self) {
        let lower = to_lowercase(&value);
        Size::of_lowercase(&lower)
    }
}

impl vstd::std_specs::convert::FromSpecImpl<String> for Size {
    open spec fn obeys_from_spec() -> bool {
        true
    }

    open spec fn from_spec(v: String) -> Size {
        size_of_lowercase(unicode_lower(v@))
    }
}

/// The tier a lowercased text names; novice for any other text.
pub open spec fn path_kind_of_lowercase(l: Seq<char>) -> PathKind {
    if l == "novice"@ {
        PathKind::Novice
    } else if l == "expert"@ {
        PathKind::Expert
    } else if l == "master"@ {
        PathKind::Master
    } else {
        PathKind::Novice
    }
}

impl PathKind {
    /// The value a lowercased text names.
    pub fn of_lowercase(l: &String) -> (r: Self)
        ensures
            r == path_kind_of_lowercase(l@),
    {
        if text_is(l, "novice") {
            PathKind::Novice
        } else if text_is(l, "expert") {
            PathKind::Expert
        } else if text_is(l, "master") {
            PathKind::Master
        } else {
            PathKind::Novice
        }
    }
}

impl From<String> for PathKind {
    fn from(value: String) -> (r: Self) {
        let lower = to_lowercase(&value);
        PathKind::of_lowercase(&lower)
    }
}

impl vstd::std_specs::convert::FromSpecImpl<String> for PathKind {
    open spec fn obeys_from_spec() -> bool {
        true
    }

    open spec fn from_spec(v: String) -> PathKind {
        path_kind_of_lowercase(unicode_lower(v@))
    }
}

/// The restore time a text names, compared with the capitalised names as written; `Never` for any other text.
pub open spec fn talent_restore_of_lowercase(l: Seq<char>) -> TalentRestore {
    if l == "None"@ {
        TalentRestore::Never
    } else if l == "Luck Ends"@ {
        TalentRestore::LuckEnds
    } else if l == "Rest"@ {
        TalentRestore::Rest
    } else if l == "Day"@ {
        TalentRestore::Day
    } else if l == "Hour"@ {
        TalentRestore::Hour
    } else if l == "Minute"@ {
        TalentRestore::Minute
    } else if l == "Start of Next Turn"@ {
        TalentRestore::StartOfNextTurn
    } else if l == "End of Next Turn"@ {
        TalentRestore::EndOfNextTurn
    } else if l == "Start of Round"@ {
        TalentRestore::StartOfRound
    } else if l == "Special"@ {
        TalentRestore::Special
    } else {
        TalentRestore::Never
    }
}

impl TalentRestore {
    /// The value a lowercased text names.
    pub fn of_lowercase(l: &String) -> (r: Self)
        ensures
            r == talent_restore_of_lowercase(l@),
    {
        if text_is(l, "None") {
            TalentRestore::Never
        } else if text_is(l, "Luck Ends") {
            TalentRestore::LuckEnds
        } else if text_is(l, "Rest") {
            TalentRestore::Rest
        } else if text_is(l, "Day") {
            TalentRestore::Day
        } else if text_is(l, "Hour") {
            TalentRestore::Hour
        } else if text_is(l, "Minute") {
            TalentRestore::Minute
        } else if text_is(l, "Start of Next Turn") {
            TalentRestore::StartOfNextTurn
        } else if text_is(l, "End of Next Turn") {
            TalentRestore::EndOfNextTurn
        } else if text_is(l, "Start of Round") {
            TalentRestore::StartOfRound
        } else if text_is(l, "Special") {
            TalentRestore::Special
        } else {
            TalentRestore::Never
        }
    }
}

impl From<String> for TalentRestore {
    fn from(value: String) -> (r: Self) {
        let lower = to_lowercase(&value);
        TalentRestore::of_lowercase(&lower)
    }
}

impl vstd::std_specs::convert::FromSpecImpl<String> for TalentRestore {
    open spec fn obeys_from_spec() -> bool {
        true
    }

    open spec fn from_spec(v: String) -> TalentRestore {
        talent_restore_of_lowercase(unicode_lower(v@))
    }
}

} // verus!
